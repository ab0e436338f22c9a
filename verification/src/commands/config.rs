//! Preferences, feature flags and setup status.

use vstd::prelude::*;

verus! {

broadcast use vstd::string::group_string_axioms;

/// Status of the initial setup wizard.
#[derive(Debug, Clone)]
pub struct SetupStatus {
    pub bambu_studio_path: Option<String>,
    pub ai_provider: Option<String>,
    pub has_api_key: bool,
    pub setup_complete: bool,
}

/// Feature flags indicating which modules are enabled.
#[derive(Debug, Clone, Copy)]
pub struct FeatureFlags {
    pub profiles_enabled: bool,
    pub analysis_enabled: bool,
}

/// Keychain service that stores the API key of a cloud provider: the
/// provider's identifier between `bambumate-` and `-api` ("" for the local
/// provider and for an empty identifier, which need no key).
pub open spec fn keychain_service_of(provider: Seq<char>) -> Seq<char> {
    if provider.len() == 0 || provider == "local"@ {
        ""@
    } else {
        "bambumate-"@ + provider + "-api"@
    }
}

/// The keychain service name for a provider's API key.
pub fn keychain_service(provider: &str) -> (r: String)
    ensures
        r@ == keychain_service_of(provider@),
{
    let p = crate::text::chars_of(provider);
    if p.len() == 0 || crate::text::eq_str(&p, "local") {
        proof { reveal_strlit("local"); }
        "".to_string()
    } else {
        let mut out: Vec<char> = Vec::new();
        crate::text::push_str(&mut out, "bambumate-");
        crate::text::push_all(&mut out, &p);
        crate::text::push_str(&mut out, "-api");
        crate::text::string_of(&out)
    }
}

/// A preference text that is present and not empty.
pub open spec fn non_empty(o: Option<Seq<char>>) -> bool {
    o matches Some(s) && s.len() > 0
}

/// Whether AI features are on: the `filament_search_use_ai` preference is
/// anything but `"false"` (absent means on).
pub open spec fn ai_enabled(use_ai_pref: Option<Seq<char>>) -> bool {
    match use_ai_pref {
        Some(s) => s != "false"@,
        None => true,
    }
}

fn option_view(o: &Option<String>) -> (r: Option<Vec<char>>)
    ensures
        match o {
            Some(s) => r matches Some(v) && v@ == s@,
            None => r is None,
        },
{
    match o {
        Some(s) => Some(crate::text::chars_of(s.as_str())),
        None => None,
    }
}

/// Feature flags from the `filament_search_use_ai` preference: profiles are
/// always on; analysis needs AI.
pub fn feature_flags(use_ai_pref: &Option<String>) -> (f: FeatureFlags)
    ensures
        f.profiles_enabled,
        f.analysis_enabled == ai_enabled(match use_ai_pref {
            Some(s) => Some(s@),
            None => None,
        }),
{
    let analysis_enabled = match option_view(use_ai_pref) {
        Some(v) => !crate::text::eq_str(&v, "false"),
        None => true,
    };
    FeatureFlags { profiles_enabled: true, analysis_enabled }
}

/// Setup status from the stored preferences. `key_present` tells whether
/// the keychain holds a key under the provider's service name (see
/// `keychain_service`). Empty preference texts count as absent. The local
/// provider needs no key. Setup is complete when the setup flag is `"true"`
/// and, with AI enabled, a provider is chosen and its key is available.
pub fn setup_status(
    bambu_studio_path: Option<String>,
    ai_provider: Option<String>,
    key_present: bool,
    setup_flag: &Option<String>,
    use_ai_pref: &Option<String>,
) -> (s: SetupStatus)
    ensures
        match bambu_studio_path {
            Some(p) => if p@.len() > 0 {
                s.bambu_studio_path matches Some(q) && q@ == p@
            } else {
                s.bambu_studio_path is None
            },
            None => s.bambu_studio_path is None,
        },
        match ai_provider {
            Some(p) => if p@.len() > 0 {
                s.ai_provider matches Some(q) && q@ == p@
            } else {
                s.ai_provider is None
            },
            None => s.ai_provider is None,
        },
        s.has_api_key == (match ai_provider {
            Some(p) => p@.len() > 0 && (p@ == "local"@ || (keychain_service_of(p@).len() > 0
                && key_present)),
            None => false,
        }),
        s.setup_complete == {
            let flag = setup_flag matches Some(f) && f@ == "true"@;
            if ai_enabled(match use_ai_pref {
                Some(u) => Some(u@),
                None => None,
            }) {
                flag && s.ai_provider is Some && s.has_api_key
            } else {
                flag
            }
        },
{
    let path = match bambu_studio_path {
        Some(p) => if !p.as_str().is_empty() { Some(p) } else { None },
        None => None,
    };
    let provider = match ai_provider {
        Some(p) => if !p.as_str().is_empty() { Some(p) } else { None },
        None => None,
    };
    let has_api_key = match &provider {
        Some(p) => {
            let pv = crate::text::chars_of(p.as_str());
            if crate::text::eq_str(&pv, "local") {
                true
            } else {
                let service = keychain_service(p.as_str());
                !service.as_str().is_empty() && key_present
            }
        },
        None => false,
    };
    let flag = match option_view(setup_flag) {
        Some(f) => crate::text::eq_str(&f, "true"),
        None => false,
    };
    let use_ai = match option_view(use_ai_pref) {
        Some(v) => !crate::text::eq_str(&v, "false"),
        None => true,
    };
    let setup_complete = if use_ai {
        flag && provider.is_some() && has_api_key
    } else {
        flag
    };
    SetupStatus { bambu_studio_path: path, ai_provider: provider, has_api_key, setup_complete }
}

} // verus!
