//! The client settings of one run, with the defaults for what was not given.
use vstd::prelude::*;

verus! {

/// The region used when none is given.
pub open spec fn default_region() -> Seq<char> {
    seq!['u', 'n', 'd', 'e', 'f', 'i', 'n', 'e', 'd']
}

/// The text of an optional value, or `default` when it is absent.
pub open spec fn text_or(value: Option<String>, default: Seq<char>) -> Seq<char> {
    match value {
        Some(s) => s@,
        None => default,
    }
}

/// What the storage client is configured with.
pub struct ClientSettings {
    pub access_key_id: String,
    pub secret_access_key: String,
    pub endpoint_url: String,
    pub force_path_style: bool,
    pub region: String,
}

fn unwrap_or_text(value: Option<String>, default: &str) -> (r: String)
    ensures
        r@ == text_or(value, default@),
{
    match value {
        Some(s) => s,
        None => default.to_owned(),
    }
}

/// Fills in the defaults: empty credentials and the `undefined` region.
pub fn resolve_settings(
    access_key_id: Option<String>,
    secret_access_key: Option<String>,
    endpoint_url: String,
    force_path_style: bool,
    region: Option<String>,
) -> (r: ClientSettings)
    ensures
        r.access_key_id@ == text_or(access_key_id, Seq::empty()),
        r.secret_access_key@ == text_or(secret_access_key, Seq::empty()),
        r.endpoint_url@ == endpoint_url@,
        r.force_path_style == force_path_style,
        r.region@ == text_or(region, default_region()),
{
    proof {
        reveal_strlit("");
        reveal_strlit("undefined");
    }
    ClientSettings {
        access_key_id: unwrap_or_text(access_key_id, ""),
        secret_access_key: unwrap_or_text(secret_access_key, ""),
        endpoint_url,
        force_path_style,
        region: unwrap_or_text(region, "undefined"),
    }
}

} // verus!
