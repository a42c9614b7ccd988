//! The impersonation environment: the four variables, and their values
//! derived from the application id, that the host process and its children
//! must see. The surrounding program assigns them; assignment in-process is
//! taken as unable to fail.

use vstd::prelude::*;
use vstd::string::StringExecFns;

use crate::text::dec_rep;
use crate::text::u32_to_decimal;

verus! {

/// The environment variables that impersonate the configured application:
/// the id under both of its names, then the client-launch flag and the
/// Steam-environment flag, both fixed to a truthy value.
pub fn impersonation_env(app_id: u32) -> (pairs: Vec<(String, String)>)
    ensures
        pairs@.len() == 4,
        pairs@[0].0@ == "SteamAppId"@ && pairs@[0].1@ == dec_rep(app_id as nat),
        pairs@[1].0@ == "SteamGameId"@ && pairs@[1].1@ == dec_rep(app_id as nat),
        pairs@[2].0@ == "SteamClientLaunch"@ && pairs@[2].1@ == "1"@,
        pairs@[3].0@ == "SteamEnv"@ && pairs@[3].1@ == "1"@,
{
    let id_text = u32_to_decimal(app_id);
    let mut pairs: Vec<(String, String)> = Vec::new();
    pairs.push((String::from_str("SteamAppId"), id_text.clone()));
    pairs.push((String::from_str("SteamGameId"), id_text));
    pairs.push((String::from_str("SteamClientLaunch"), String::from_str("1")));
    pairs.push((String::from_str("SteamEnv"), String::from_str("1")));
    pairs
}

} // verus!
