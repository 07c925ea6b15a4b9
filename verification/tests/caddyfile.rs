use gitops::config::Config;
use gitops::error::OpsError;
use gitops::names::Section;
use gitops::ops::caddy::{check_addrs, get_config, push_site_blocks, AddrsBackend, CaddyConfig, FileServer, Routes};

fn strings(v: &[&str]) -> Vec<String> {
    v.iter().map(|s| s.to_string()).collect()
}

fn sample_routes() -> Routes {
    Routes {
        fs: Some(vec![FileServer { addrs: strings(&["a.example.com", "b.example.com"]), dir: "/srv/www".to_string() }]),
        redirs: Some(vec![AddrsBackend { addrs: strings(&["old.example.com"]), backend: "new.example.com".to_string() }]),
        rev_proxies: Some(vec![AddrsBackend { addrs: strings(&[":8080"]), backend: "localhost:3000".to_string() }]),
    }
}

#[test]
fn file_server_block() {
    let f = FileServer { addrs: strings(&["a.example.com", "b.example.com"]), dir: "/srv/www".to_string() };
    assert_eq!(
        f.to_fs_site_block().unwrap(),
        "a.example.com, b.example.com {\r\n  root /srv/www\r\n  file_server browse\r\n}"
    );
}

#[test]
fn redirect_block() {
    let b = AddrsBackend { addrs: strings(&["old.example.com"]), backend: "new.example.com".to_string() };
    assert_eq!(b.to_redir_site_block().unwrap(), "old.example.com {\r\n  redir https://new.example.com{uri}\r\n}");
}

#[test]
fn proxy_block() {
    let b = AddrsBackend { addrs: strings(&[":8080", ":8081"]), backend: "localhost:3000".to_string() };
    assert_eq!(b.to_proxy_site_block().unwrap(), ":8080, :8081 {\r\n  reverse_proxy localhost:3000\r\n}");
}

#[test]
fn empty_addrs_are_refused() {
    assert_eq!(check_addrs(&[]), Err(OpsError::EmptyAddrs));
    assert_eq!(check_addrs(&strings(&["x"])), Ok(()));
    let f = FileServer { addrs: vec![], dir: "d".to_string() };
    assert_eq!(f.to_fs_site_block(), Err(OpsError::EmptyAddrs));
    let b = AddrsBackend { addrs: vec![], backend: "x".to_string() };
    assert_eq!(b.to_redir_site_block(), Err(OpsError::EmptyAddrs));
    assert_eq!(b.to_proxy_site_block(), Err(OpsError::EmptyAddrs));
}

#[test]
fn blocks_join_in_kind_order() {
    let r = sample_routes();
    assert_eq!(
        r.join_site_blocks().unwrap(),
        "a.example.com, b.example.com {\r\n  root /srv/www\r\n  file_server browse\r\n}\r\n\r\n\
         old.example.com {\r\n  redir https://new.example.com{uri}\r\n}\r\n\r\n\
         :8080 {\r\n  reverse_proxy localhost:3000\r\n}"
    );
}

#[test]
fn caddyfile_ends_with_line_break() {
    let c = CaddyConfig { version: "2.8.4".to_string(), deploy: None, routes: Some(sample_routes()) };
    let text = c.get_caddyfile().unwrap();
    assert!(text.ends_with("}\r\n"));
    assert!(text.starts_with("a.example.com, b.example.com {"));
    let empty = CaddyConfig { version: "2.8.4".to_string(), deploy: None, routes: None };
    assert_eq!(empty.get_caddyfile().unwrap(), "\r\n");
}

#[test]
fn one_bad_site_fails_the_caddyfile() {
    let mut r = sample_routes();
    r.rev_proxies = Some(vec![
        AddrsBackend { addrs: strings(&[":1"]), backend: "x".to_string() },
        AddrsBackend { addrs: vec![], backend: "y".to_string() },
    ]);
    let c = CaddyConfig { version: "1".to_string(), deploy: None, routes: Some(r) };
    assert_eq!(c.get_caddyfile(), Err(OpsError::EmptyAddrs));
}

#[test]
fn push_stops_at_first_failure() {
    let items = vec![1, 2, 3, 4];
    let mut blocks = vec!["head".to_string()];
    let res = push_site_blocks(&items, &mut blocks, |i: &i32| {
        if *i == 3 { Err(OpsError::EmptyAddrs) } else { Ok(format!("b{}", i)) }
    });
    assert_eq!(res, Err(OpsError::EmptyAddrs));
    assert_eq!(blocks, strings(&["head", "b1", "b2"]));
}

#[test]
fn version_only_config() {
    let c = CaddyConfig::version("2.7.6");
    assert_eq!(c.version, "2.7.6");
    assert!(c.deploy.is_none());
    assert!(c.routes.is_none());
    let whole = Config::from(c);
    assert_eq!(whole.caddy.as_ref().unwrap().version, "2.7.6");
    assert!(whole.hugo.is_none());
    assert!(whole.sync.is_none());
}

#[test]
fn caddy_section_is_required() {
    let none = Config { caddy: None, hugo: None, sync: None };
    assert_eq!(get_config(&none).err(), Some(OpsError::MissingSection(Section::Caddy)));
    let some = Config::from(CaddyConfig::version("1.0"));
    assert_eq!(get_config(&some).unwrap().version, "1.0");
}
