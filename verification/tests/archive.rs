use gitops::archive::{unzip, ArchiveKind};
use gitops::error::OpsError;
use std::io::Write;

fn tar_gz(entries: &[(&str, &[u8])]) -> Vec<u8> {
    let enc = flate2::write::GzEncoder::new(Vec::new(), flate2::Compression::default());
    let mut b = tar::Builder::new(enc);
    for (name, data) in entries {
        let mut h = tar::Header::new_gnu();
        h.set_size(data.len() as u64);
        h.set_mode(0o755);
        h.set_cksum();
        b.append_data(&mut h, name, *data).unwrap();
    }
    b.into_inner().unwrap().finish().unwrap()
}

fn zip_bytes(entries: &[(&str, &[u8])]) -> Vec<u8> {
    let mut w = zip::ZipWriter::new(std::io::Cursor::new(Vec::new()));
    let opts = zip::write::SimpleFileOptions::default().compression_method(zip::CompressionMethod::Stored);
    for (name, data) in entries {
        w.start_file(*name, opts).unwrap();
        w.write_all(data).unwrap();
    }
    w.finish().unwrap().into_inner()
}

#[test]
fn tar_gz_first_match_wins() {
    let z = tar_gz(&[("LICENSE", b"license"), ("README.md", b"readme"), ("caddy", b"\x7fELF-1"), ("caddy-extra", b"2")]);
    let (name, contents) = unzip(&z, "caddy", ArchiveKind::TarGz).unwrap();
    assert_eq!(name, "caddy");
    assert_eq!(contents, b"\x7fELF-1".to_vec());
}

#[test]
fn tar_gz_takes_file_name_of_nested_path() {
    let z = tar_gz(&[("hugo_dir/hugo", b"bin")]);
    let (name, contents) = unzip(&z, "hugo", ArchiveKind::TarGz).unwrap();
    assert_eq!(name, "hugo");
    assert_eq!(contents, b"bin".to_vec());
}

#[test]
fn tar_gz_without_match() {
    let z = tar_gz(&[("LICENSE", b"license")]);
    assert_eq!(unzip(&z, "caddy", ArchiveKind::TarGz), Err(OpsError::ExecutableNotFound("caddy".to_string())));
    assert_eq!(OpsError::ExecutableNotFound("caddy".to_string()).message(), "压缩包中未找到caddy执行文件！");
}

#[test]
fn garbage_is_not_an_archive() {
    assert!(matches!(unzip(b"not an archive", "caddy", ArchiveKind::TarGz), Err(OpsError::Other(_))));
    assert!(matches!(unzip(b"not an archive", "caddy", ArchiveKind::Zip), Err(OpsError::Other(_))));
}

#[test]
fn zip_first_match_wins() {
    let z = zip_bytes(&[("README.md", b"r"), ("caddy.exe", b"MZ-exe"), ("caddy2.exe", b"x")]);
    let (name, contents) = unzip(&z, "caddy", ArchiveKind::Zip).unwrap();
    assert_eq!(name, "caddy.exe");
    assert_eq!(contents, b"MZ-exe".to_vec());
}

#[test]
fn zip_without_match() {
    let z = zip_bytes(&[("README.md", b"r")]);
    assert_eq!(unzip(&z, "hugo", ArchiveKind::Zip), Err(OpsError::ExecutableNotFound("hugo".to_string())));
}

#[test]
fn zip_unsafe_path_stops_the_search() {
    let z = zip_bytes(&[("../evil", b"x"), ("caddy.exe", b"y")]);
    assert_eq!(unzip(&z, "caddy", ArchiveKind::Zip), Err(OpsError::UnenclosedPath));
}

fn tar_gz_raw_name(name: &[u8]) -> Vec<u8> {
    let enc = flate2::write::GzEncoder::new(Vec::new(), flate2::Compression::default());
    let mut b = tar::Builder::new(enc);
    let mut h = tar::Header::new_old();
    h.as_old_mut().name[..name.len()].copy_from_slice(name);
    h.set_size(0);
    h.set_cksum();
    b.append(&h, &[][..]).unwrap();
    b.into_inner().unwrap().finish().unwrap()
}

#[test]
fn tar_gz_name_without_file_name_stops_the_search() {
    let z = tar_gz_raw_name(b"..");
    assert_eq!(unzip(&z, "caddy", ArchiveKind::TarGz), Err(OpsError::MissingFileName));
}

#[test]
fn tar_gz_name_that_is_not_utf8_stops_the_search() {
    let z = tar_gz_raw_name(b"\xff\xfe");
    assert_eq!(unzip(&z, "caddy", ArchiveKind::TarGz), Err(OpsError::FileNameEncoding));
}
