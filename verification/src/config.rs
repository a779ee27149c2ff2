//! Service configuration, as read from the environment.
use vstd::prelude::*;
use crate::text::{is_blank, trimmed};

verus! {

/// Settings of the service. `routing_provider` is `gaode`, `embedded` or
/// `opensource`; left unset, the provider follows from whether a Gaode web key
/// is configured.
#[derive(Clone, Debug)]
pub struct Config {
    pub database_url: String,
    pub jwt_secret: String,
    pub listen_addr: String,
    pub admin_username: String,
    pub admin_password: String,
    pub cors_origin: String,
    pub routing_provider: Option<String>,
    pub amap_web_key: Option<String>,
    pub amap_js_key: Option<String>,
    pub amap_security_js_code: Option<String>,
}

/// `v` unless it is absent or holds only whitespace.
pub open spec fn spec_non_blank(v: Option<Seq<char>>) -> Option<Seq<char>> {
    match v {
        Some(s) => if trimmed(s).len() == 0 { None } else { Some(s) },
        None => None,
    }
}

/// The view of an optional string.
pub open spec fn opt_view(v: Option<String>) -> Option<Seq<char>> {
    match v {
        Some(s) => Some(s@),
        None => None,
    }
}

/// Keeps a setting only when it holds something besides whitespace.
pub fn non_blank(v: Option<String>) -> (r: Option<String>)
    ensures
        opt_view(r) == spec_non_blank(opt_view(v)),
{
    match v {
        Some(s) => if is_blank(s.as_str()) { None } else { Some(s) },
        None => None,
    }
}

} // verus!
