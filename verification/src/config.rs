use vstd::prelude::*;
use crate::ops::caddy::CaddyConfig;
use crate::ops::hugo::HugoConfig;
use crate::ops::sync::SyncConfig;

verus! {

/// The whole configuration file: one optional section per operation.
pub struct Config {
    pub caddy: Option<CaddyConfig>,
    pub hugo: Option<HugoConfig>,
    pub sync: Option<SyncConfig>,
}

impl From<CaddyConfig> for Config {
    /// A configuration with only the given `[caddy]` section.
    fn from(value: CaddyConfig) -> (res: Self) {
        Config { caddy: Some(value), hugo: None, sync: None }
    }
}

impl vstd::std_specs::convert::FromSpecImpl<CaddyConfig> for Config {
    open spec fn obeys_from_spec() -> bool {
        true
    }

    open spec fn from_spec(value: CaddyConfig) -> Self {
        Config { caddy: Some(value), hugo: None, sync: None }
    }
}

} // verus!
