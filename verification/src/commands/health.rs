//! Installation health checks.

use vstd::prelude::*;

verus! {

broadcast use vstd::string::group_string_axioms;

/// Result of the application's health check.
#[derive(Debug, Clone)]
pub struct HealthReport {
    pub bambu_studio_installed: bool,
    pub bambu_studio_path: Option<String>,
    pub profile_dir_accessible: bool,
    pub profile_dir_path: Option<String>,
    pub claude_api_key_set: bool,
    pub openai_api_key_set: bool,
    pub kimi_api_key_set: bool,
    pub openrouter_api_key_set: bool,
}

/// Result of validating a Bambu Studio configuration directory.
#[derive(Debug, Clone)]
pub struct PathValidation {
    pub valid: bool,
    pub has_system_profiles: bool,
    pub has_config_file: bool,
    pub message: String,
}

/// Message for a missing directory.
pub const MSG_MISSING: &'static str = "Directory does not exist";

/// Message for a valid configuration directory.
pub const MSG_VALID: &'static str = "Valid Bambu Studio configuration directory";

/// Message for a directory with only a user folder.
pub const MSG_PARTIAL: &'static str = "Directory has a user folder but may be incomplete. You can try using it.";

/// Message for a directory that is not a configuration directory.
pub const MSG_INVALID: &'static str = "This does not appear to be a Bambu Studio configuration directory. Expected to find system/BBL/filament/ or BambuStudio.conf";

/// Judge a candidate configuration directory from what the file system
/// shows: whether it is an existing directory, whether it holds
/// `system/BBL/filament/`, `BambuStudio.conf` and a `user` folder. It is
/// valid when it holds the system profiles or the configuration file.
pub fn validate_config_dir(
    is_dir: bool,
    has_system_profiles: bool,
    has_config_file: bool,
    has_user_dir: bool,
) -> (v: PathValidation)
    ensures
        !is_dir ==> !v.valid && !v.has_system_profiles && !v.has_config_file && v.message@
            == MSG_MISSING@,
        is_dir ==> v.valid == (has_system_profiles || has_config_file) && v.has_system_profiles
            == has_system_profiles && v.has_config_file == has_config_file && v.message@ == (if v.valid {
            MSG_VALID@
        } else if has_user_dir {
            MSG_PARTIAL@
        } else {
            MSG_INVALID@
        }),
{
    if !is_dir {
        return PathValidation {
            valid: false,
            has_system_profiles: false,
            has_config_file: false,
            message: MSG_MISSING.to_string(),
        };
    }
    let valid = has_system_profiles || has_config_file;
    let message = if valid {
        MSG_VALID.to_string()
    } else if has_user_dir {
        MSG_PARTIAL.to_string()
    } else {
        MSG_INVALID.to_string()
    };
    PathValidation { valid, has_system_profiles, has_config_file, message }
}

/// Paths where a Linux installation of Bambu Studio is looked for, in order.
pub fn linux_install_candidates() -> (r: Vec<&'static str>)
    ensures
        r@.len() == 2,
        r@[0]@ == "/usr/bin/BambuStudio"@,
        r@[1]@ == "/opt/BambuStudio/BambuStudio"@,
{
    vec!["/usr/bin/BambuStudio", "/opt/BambuStudio/BambuStudio"]
}

/// The first candidate path that exists, as (installed, path); `present`
/// tells which candidates exist.
pub fn first_existing(candidates: &Vec<&'static str>, present: &Vec<bool>) -> (r: (bool, Option<String>))
    requires
        candidates@.len() == present@.len(),
    ensures
        r.0 == present@.contains(true),
        r.0 ==> (r.1 matches Some(p) && exists|i: int|
            0 <= i < present@.len() && present@[i] && p@ == candidates@[i]@ && forall|k: int|
                0 <= k < i ==> !present@[k]),
        !r.0 ==> r.1 is None,
{
    let mut i: usize = 0;
    while i < candidates.len()
        invariant
            i <= candidates@.len() == present@.len(),
            forall|k: int| 0 <= k < i ==> !present@[k],
        decreases candidates.len() - i,
    {
        if present[i] {
            let p = candidates[i].to_string();
            proof {
                assert(present@[i as int]);
            }
            return (true, Some(p));
        }
        i = i + 1;
    }
    proof {
        assert(!present@.contains(true)) by {
            if present@.contains(true) {
                let k = choose|k: int| 0 <= k < present@.len() && present@[k] == true;
                assert(!present@[k]);
            }
        }
    }
    (false, None)
}

} // verus!
