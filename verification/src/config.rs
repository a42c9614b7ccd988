//! Configuration resolution: from the settings text (an opaque key/value
//! lookup), the probed library path and the sibling id file to an immutable
//! `ColdLoaderConfig`, or a fatal `ConfigError`.

use vstd::prelude::*;
use vstd::string::StringExecFns;

use crate::paths::has_sep;
use crate::paths::join;
use crate::paths::join_seq;
use crate::paths::parent_of;
use crate::paths::parent_seq;
use crate::text::parse_u32;
use crate::text::parse_u32_model;
use crate::text::trim_model;
use crate::text::trim_spaces;
use crate::text::view_of_opt_string;

verus! {

/// The resolved configuration: produced once, immutable afterwards, read by
/// every other component.
#[derive(Debug)]
pub struct ColdLoaderConfig {
    pub app_id: u32,
    pub steamclient64_path: String,
}

#[derive(Debug, Clone, Copy, PartialEq, Eq, Structural)]
pub enum ConfigError {
    /// No configured or default client library exists on disk.
    LibraryNotFound,
    /// Neither the settings text nor the sibling id file yields an id.
    AppIdNotFound,
}

/// The value the `[settings]` section of the configuration text holds for a
/// key: a function of the text and the key alone.
pub uninterp spec fn ini_settings_value(text: Seq<char>, key: Seq<char>) -> Option<Seq<char>>;

/// Relies on ini::Ini::load_from_str, ini::Ini::section and
/// ini::Properties::get: the value found for `key` in the `[settings]`
/// section is a function of the document text and the key alone, and text
/// that does not parse yields no value.
#[verifier::external_body]
fn settings_value(text: &str, key: &str) -> (r: Option<String>)
    ensures
        view_of_opt_string(r) == ini_settings_value(text@, key@),
{
    match ini::Ini::load_from_str(text) {
        Ok(doc) => doc.section(Some("settings")).and_then(|s| s.get(key)).map(|v| v.to_string()),
        Err(_) => None,
    }
}

/// The library file name the settings text configures, or the default.
pub open spec fn configured_library_name(ini_text: Option<Seq<char>>) -> Seq<char> {
    match ini_text {
        Some(t) => match ini_settings_value(t, "steamclient64"@) {
            Some(n) => n,
            None => "steamclient64.dll"@,
        },
        None => "steamclient64.dll"@,
    }
}

/// The library path the resolver probes: the configured or default file
/// name, relative to the base directory.
pub fn library_candidate(base_dir: &str, ini_text: &Option<String>) -> (r: String)
    ensures
        r@ == join_seq(base_dir@, configured_library_name(view_of_opt_string(*ini_text))),
{
    let name: String = match ini_text {
        Some(t) => match settings_value(t.as_str(), "steamclient64") {
            Some(n) => n,
            None => String::from_str("steamclient64.dll"),
        },
        None => String::from_str("steamclient64.dll"),
    };
    join(base_dir, name.as_str())
}

/// Where the sibling id file lives: `steam_appid.txt` next to the resolved
/// library. A path without a directory part has no sibling.
pub fn app_id_text_path(library_path: &str) -> (r: Option<String>)
    ensures
        r is Some <==> has_sep(library_path@),
        r matches Some(p) ==> p@ == join_seq(parent_seq(library_path@), "steam_appid.txt"@),
{
    match parent_of(library_path) {
        Some(dir) => Some(join(dir.as_str(), "steam_appid.txt")),
        None => None,
    }
}

/// The id the settings text configures, unparsed.
pub open spec fn configured_app_id_text(ini_text: Option<Seq<char>>) -> Option<Seq<char>> {
    match ini_text {
        Some(t) => ini_settings_value(t, "appid"@),
        None => None,
    }
}

/// The application id the two sources resolve to: the id configured in the
/// settings text when it parses as a decimal `u32`, else the trimmed content
/// of the sibling id file when that parses, else nothing.
pub open spec fn app_id_resolution(
    ini_text: Option<Seq<char>>,
    sibling_text: Option<Seq<char>>,
) -> Option<u32> {
    let from_ini = match configured_app_id_text(ini_text) {
        Some(v) => parse_u32_model(v),
        None => None,
    };
    if from_ini is Some {
        from_ini
    } else {
        match sibling_text {
            Some(t) => parse_u32_model(trim_model(t)),
            None => None,
        }
    }
}

/// The resolver's decision. The probed library path must exist on disk, and
/// the application id must resolve from the settings text or the sibling id
/// file; each failure is reported as its own error.
pub fn resolve_config(
    candidate_path: String,
    library_exists: bool,
    ini_text: &Option<String>,
    sibling_text: &Option<String>,
) -> (r: Result<ColdLoaderConfig, ConfigError>)
    ensures
        r is Ok <==> library_exists && app_id_resolution(
            view_of_opt_string(*ini_text),
            view_of_opt_string(*sibling_text),
        ) is Some,
        r matches Ok(cfg) ==> cfg.steamclient64_path@ == candidate_path@ && Some(cfg.app_id)
            == app_id_resolution(
            view_of_opt_string(*ini_text),
            view_of_opt_string(*sibling_text),
        ),
        r matches Err(e) ==> (e is LibraryNotFound <==> !library_exists),
{
    if !library_exists {
        return Err(ConfigError::LibraryNotFound);
    }
    let from_ini: Option<u32> = match ini_text {
        Some(t) => match settings_value(t.as_str(), "appid") {
            Some(v) => parse_u32(v.as_str()),
            None => None,
        },
        None => None,
    };
    let app_id: u32 = match from_ini {
        Some(id) => id,
        None => match sibling_text {
            Some(t) => {
                let trimmed = trim_spaces(t.as_str());
                match parse_u32(trimmed.as_str()) {
                    Some(id) => id,
                    None => {
                        return Err(ConfigError::AppIdNotFound);
                    },
                }
            },
            None => {
                return Err(ConfigError::AppIdNotFound);
            },
        },
    };
    Ok(ColdLoaderConfig { app_id, steamclient64_path: candidate_path })
}

} // verus!
