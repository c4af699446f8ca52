//! Authentication status, decided from filesystem probes.
//!
//! The probes themselves — finding the home directory, testing whether a
//! config file exists, listing a directory — are plain I/O that the
//! embedding application performs; the decisions about what they mean are
//! made and proved here.

use vstd::prelude::*;

verus! {

/// Authentication status of the assistant's CLI, as judged from its config
/// directory.
#[derive(Debug, Clone, PartialEq, Eq)]
pub struct AuthStatus {
    /// Whether the user appears to be authenticated.
    pub authenticated: bool,
    /// Path to the config directory, when a home directory was found.
    pub config_path: Option<String>,
}

/// The CLI's config directory: the host-configured directory name under the
/// home directory, when one was found.
pub fn get_claude_config_dir(home: Option<&String>, dir_name: &str) -> (r: Option<String>)
    ensures
        (match home {
            Some(h) => r matches Some(d) && d@ == h@ + "/"@ + dir_name@,
            None => r is None,
        }),
{
    match home {
        Some(h) => Some(crate::paths::join_path(h.as_str(), dir_name)),
        None => None,
    }
}

/// Decide the authentication status: the user counts as authenticated when a
/// home directory was found and either probed config file (`config.json` or
/// `credentials.json`) exists in the config directory.
pub fn check_auth_status(
    home: Option<&String>,
    dir_name: &str,
    config_json_exists: bool,
    credentials_exists: bool,
) -> (r: AuthStatus)
    ensures
        r.authenticated == (home is Some && (config_json_exists || credentials_exists)),
        (match home {
            Some(h) => r.config_path matches Some(d) && d@ == h@ + "/"@ + dir_name@,
            None => r.config_path is None,
        }),
{
    let config_path = get_claude_config_dir(home, dir_name);
    let authenticated = match home {
        Some(_) => config_json_exists || credentials_exists,
        None => false,
    };
    AuthStatus { authenticated, config_path }
}

/// What the embedding application found when it went to list the config
/// directory.
#[derive(Debug, Clone, PartialEq, Eq)]
pub enum ConfigDirListing {
    /// No home directory could be found.
    NoHome,
    /// The config directory does not exist.
    Missing,
    /// Reading the directory failed; the payload is the error text.
    ReadFailed(String),
    /// The names of the directory's entries.
    Entries(Vec<String>),
}

/// Turn a listing of the config directory into the report handed to the
/// caller: the entry names on success, a placeholder line for a missing
/// directory, and a descriptive message for each failure.
pub fn get_claude_config_info(listing: ConfigDirListing) -> (r: Result<Vec<String>, String>)
    ensures
        (match listing {
            ConfigDirListing::NoHome => r matches Err(m) && m@ == "Could not find home directory"@,
            ConfigDirListing::Missing => r matches Ok(v) && v@.len() == 1 && v@[0]@
                == "Config directory does not exist"@,
            ConfigDirListing::ReadFailed(e) => r matches Err(m) && m@
                == "Failed to read config directory: "@ + e@,
            ConfigDirListing::Entries(es) => r matches Ok(v) && v@ == es@,
        }),
{
    match listing {
        ConfigDirListing::NoHome => Err(String::from_str("Could not find home directory")),
        ConfigDirListing::Missing => {
            let mut v: Vec<String> = Vec::new();
            v.push(String::from_str("Config directory does not exist"));
            Ok(v)
        },
        ConfigDirListing::ReadFailed(e) => Err(
            String::from_str("Failed to read config directory: ").concat(e.as_str()),
        ),
        ConfigDirListing::Entries(es) => Ok(es),
    }
}

} // verus!
