//! Profiles: a named bundle of minimum severity, theme name, and highlight
//! keywords that controls ingest filtering and presentation.

use vstd::prelude::*;
use crate::parse::Level;
use crate::util;

verus! {

/// A named bundle of ingest and presentation settings.
#[derive(Debug, Clone)]
pub struct Profile {
    pub name: String,
    /// Events below this severity are dropped before reaching the store.
    pub min_level: Level,
    /// Name of the theme the profile selects.
    pub theme: String,
    /// Keywords emphasized in sample display.
    pub highlights: Vec<String>,
}

/// Mathematical model of a `Profile`.
#[verifier::ext_equal]
pub struct ProfileV {
    pub name: Seq<char>,
    pub min_level: Level,
    pub theme: Seq<char>,
    pub highlights: Seq<Seq<char>>,
}

impl View for Profile {
    type V = ProfileV;

    open spec fn view(&self) -> ProfileV {
        ProfileV {
            name: self.name@,
            min_level: self.min_level,
            theme: self.theme@,
            highlights: util::str_views(self.highlights@),
        }
    }
}

/// The views of a sequence of profiles.
pub open spec fn profile_views(v: Seq<Profile>) -> Seq<ProfileV> {
    v.map_values(|p: Profile| p@)
}

/// The built-in default profile: informational severity and no highlights.
pub open spec fn spec_default_profile() -> ProfileV {
    ProfileV {
        name: "default"@,
        min_level: Level::Info,
        theme: "matrix"@,
        highlights: Seq::<Seq<char>>::empty(),
    }
}

/// The built-in operations profile: warnings and worse, incident keywords.
pub open spec fn spec_ops_profile() -> ProfileV {
    ProfileV {
        name: "ops"@,
        min_level: Level::Warn,
        theme: "matrix"@,
        highlights: seq!["panic"@, "timeout"@, "error"@, "fail"@, "refused"@, "disconnect"@],
    }
}

/// The built-in network profile: warnings and worse, link keywords.
pub open spec fn spec_network_profile() -> ProfileV {
    ProfileV {
        name: "network"@,
        min_level: Level::Warn,
        theme: "matrix"@,
        highlights: seq!["down"@, "up"@, "flap"@, "reset"@, "timeout"@, "link"@, "vpn"@, "error"@],
    }
}

/// The three built-in profiles, in order.
pub open spec fn builtin_profiles() -> Seq<ProfileV> {
    seq![spec_default_profile(), spec_ops_profile(), spec_network_profile()]
}

impl Profile {
    pub fn default_profile() -> (r: Profile)
        ensures
            r@ == spec_default_profile(),
    {
        let r = Profile {
            name: String::from_str("default"),
            min_level: Level::Info,
            theme: String::from_str("matrix"),
            highlights: Vec::new(),
        };
        proof {
            assert(r@ =~~= spec_default_profile());
        }
        r
    }

    pub fn ops() -> (r: Profile)
        ensures
            r@ == spec_ops_profile(),
    {
        let mut h: Vec<String> = Vec::new();
        h.push(String::from_str("panic"));
        h.push(String::from_str("timeout"));
        h.push(String::from_str("error"));
        h.push(String::from_str("fail"));
        h.push(String::from_str("refused"));
        h.push(String::from_str("disconnect"));
        let r = Profile {
            name: String::from_str("ops"),
            min_level: Level::Warn,
            theme: String::from_str("matrix"),
            highlights: h,
        };
        proof {
            assert(r@ =~~= spec_ops_profile());
        }
        r
    }

    pub fn network() -> (r: Profile)
        ensures
            r@ == spec_network_profile(),
    {
        let mut h: Vec<String> = Vec::new();
        h.push(String::from_str("down"));
        h.push(String::from_str("up"));
        h.push(String::from_str("flap"));
        h.push(String::from_str("reset"));
        h.push(String::from_str("timeout"));
        h.push(String::from_str("link"));
        h.push(String::from_str("vpn"));
        h.push(String::from_str("error"));
        let r = Profile {
            name: String::from_str("network"),
            min_level: Level::Warn,
            theme: String::from_str("matrix"),
            highlights: h,
        };
        proof {
            assert(r@ =~~= spec_network_profile());
        }
        r
    }

    /// The built-in profiles, in order: default, ops, network.
    pub fn all_profiles() -> (r: Vec<Profile>)
        ensures
            profile_views(r@) =~~= builtin_profiles(),
    {
        let mut v: Vec<Profile> = Vec::new();
        v.push(Self::default_profile());
        v.push(Self::ops());
        v.push(Self::network());
        proof {
            assert(profile_views(v@) =~~= builtin_profiles());
        }
        v
    }
}

} // verus!
