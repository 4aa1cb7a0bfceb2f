//! Configuration: named profile overrides loaded from the config file, and
//! how they merge with the built-in profiles. Reading and decoding the file
//! itself happens at the edge; the rules live here.

use vstd::prelude::*;
use crate::parse::{char_eq_ci, Level};
use crate::profile::{builtin_profiles, profile_views, Profile, ProfileV};
use crate::theme;
use crate::util;

verus! {

/// The whole configuration file: an optional default profile name and a set
/// of profile overrides, in file order.
#[derive(Debug)]
pub struct Config {
    pub default_profile: Option<String>,
    pub profiles: Vec<(String, ProfileConfig)>,
}

/// One profile as configured: severity and theme by name, plus highlights.
#[derive(Debug)]
pub struct ProfileConfig {
    pub min_level: String,
    pub theme: String,
    pub highlights: Vec<String>,
}

/// Mathematical model of a `ProfileConfig`.
#[verifier::ext_equal]
pub struct ProfileConfigV {
    pub min_level: Seq<char>,
    pub theme: Seq<char>,
    pub highlights: Seq<Seq<char>>,
}

impl View for ProfileConfig {
    type V = ProfileConfigV;

    open spec fn view(&self) -> ProfileConfigV {
        ProfileConfigV {
            min_level: self.min_level@,
            theme: self.theme@,
            highlights: util::str_views(self.highlights@),
        }
    }
}

/// The views of the configured profile entries.
pub open spec fn entry_views(v: Seq<(String, ProfileConfig)>) -> Seq<(Seq<char>, ProfileConfigV)> {
    v.map_values(|e: (String, ProfileConfig)| (e.0@, e.1@))
}

/// The level name a profile gets when the file names none.
pub fn default_min_level() -> (r: String)
    ensures
        r@ == "INFO"@,
{
    String::from_str("INFO")
}

/// The theme name a profile gets when the file names none.
pub fn default_theme_name() -> (r: String)
    ensures
        r@ == "matrix"@,
{
    String::from_str("matrix")
}

/// `s` reads as `n` with ASCII letters taken case-insensitively.
pub open spec fn str_ieq(s: Seq<char>, n: Seq<char>) -> bool {
    s.len() == n.len() && forall|j: int| 0 <= j < n.len() ==> char_eq_ci(s[j], n[j])
}

fn str_ieq_exec(v: &Vec<char>, lit: &str) -> (r: bool)
    ensures
        r == str_ieq(v@, lit@),
{
    let nd = util::chars_of(lit);
    if v.len() != nd.len() {
        return false;
    }
    let mut j: usize = 0;
    while j < nd.len()
        invariant
            j <= nd.len(),
            nd@ == lit@,
            v@.len() == nd@.len(),
            forall|m: int| 0 <= m < j ==> char_eq_ci(v@[m], nd@[m]),
        decreases nd.len() - j,
    {
        let a = v[j] as u32;
        let b = nd[j] as u32;
        if !(v[j] == nd[j] || (65 <= b && b <= 90 && a == b + 32)) {
            return false;
        }
        j = j + 1;
    }
    true
}

/// The severity a configured level name selects; unknown names fall back to
/// `Info`. `WARN` and `WARNING` both select `Warn`.
pub open spec fn spec_parse_level(s: Seq<char>) -> Level {
    if str_ieq(s, "TRACE"@) {
        Level::Trace
    } else if str_ieq(s, "DEBUG"@) {
        Level::Debug
    } else if str_ieq(s, "INFO"@) {
        Level::Info
    } else if str_ieq(s, "WARN"@) || str_ieq(s, "WARNING"@) {
        Level::Warn
    } else if str_ieq(s, "ERROR"@) {
        Level::Error
    } else {
        Level::Info
    }
}

/// Read a level name, case-insensitively.
pub fn parse_level(s: &str) -> (r: Level)
    ensures
        r == spec_parse_level(s@),
{
    let v = util::chars_of(s);
    if str_ieq_exec(&v, "TRACE") {
        Level::Trace
    } else if str_ieq_exec(&v, "DEBUG") {
        Level::Debug
    } else if str_ieq_exec(&v, "INFO") {
        Level::Info
    } else if str_ieq_exec(&v, "WARN") || str_ieq_exec(&v, "WARNING") {
        Level::Warn
    } else if str_ieq_exec(&v, "ERROR") {
        Level::Error
    } else {
        Level::Info
    }
}

/// The theme a configured name selects: itself when known, else the default.
pub open spec fn merged_theme(t: Seq<char>) -> Seq<char> {
    if theme::spec_theme_exists(t) {
        t
    } else {
        "matrix"@
    }
}

/// Index of the first profile with the name, or `-1`.
pub open spec fn find_profile(ps: Seq<ProfileV>, name: Seq<char>) -> int
    decreases ps.len(),
{
    if ps.len() == 0 {
        -1
    } else if ps[0].name == name {
        0
    } else {
        let r = find_profile(ps.drop_first(), name);
        if r < 0 {
            -1
        } else {
            1 + r
        }
    }
}

pub proof fn lemma_find_profile(ps: Seq<ProfileV>, name: Seq<char>)
    ensures
        find_profile(ps, name) >= 0 ==> 0 <= find_profile(ps, name) < ps.len() && ps[find_profile(
            ps,
            name,
        )].name == name && (forall|m: int|
            0 <= m < find_profile(ps, name) ==> ps[m].name != name),
        find_profile(ps, name) < 0 ==> forall|m: int| 0 <= m < ps.len() ==> ps[m].name != name,
    decreases ps.len(),
{
    if ps.len() == 0 {
    } else if ps[0].name == name {
    } else {
        lemma_find_profile(ps.drop_first(), name);
        assert forall|m: int| 1 <= m < ps.len() implies ps.drop_first()[m - 1] == ps[m] by {}
    }
}

/// What one configured entry does to the profile list: a profile of the same
/// name takes the configured fields; a new name is appended.
pub open spec fn apply_entry(ps: Seq<ProfileV>, name: Seq<char>, pc: ProfileConfigV) -> Seq<
    ProfileV,
> {
    let j = find_profile(ps, name);
    if j >= 0 {
        ps.update(
            j,
            ProfileV {
                name: ps[j].name,
                min_level: spec_parse_level(pc.min_level),
                theme: merged_theme(pc.theme),
                highlights: pc.highlights,
            },
        )
    } else {
        ps.push(
            ProfileV {
                name: name,
                min_level: spec_parse_level(pc.min_level),
                theme: merged_theme(pc.theme),
                highlights: pc.highlights,
            },
        )
    }
}

/// The profile list after folding in the entries from position `i` on.
pub open spec fn merged_from(
    base: Seq<ProfileV>,
    entries: Seq<(Seq<char>, ProfileConfigV)>,
    i: int,
) -> Seq<ProfileV>
    decreases entries.len() - i,
{
    if i < 0 || i >= entries.len() {
        base
    } else {
        merged_from(apply_entry(base, entries[i].0, entries[i].1), entries, i + 1)
    }
}

/// Index of the first profile carrying the name, if any.
pub fn find_profile_index(profiles: &Vec<Profile>, name: &String) -> (r: Option<usize>)
    ensures
        match r {
            Some(j) => find_profile(profile_views(profiles@), name@) == j as int && j
                < profiles@.len(),
            None => find_profile(profile_views(profiles@), name@) < 0,
        },
{
    let ghost ps = profile_views(profiles@);
    let mut j: usize = 0;
    while j < profiles.len()
        invariant
            j <= profiles@.len(),
            ps == profile_views(profiles@),
            forall|m: int| 0 <= m < j ==> (#[trigger] ps[m]).name != name@,
        decreases profiles@.len() - j,
    {
        if profiles[j].name.eq(name) {
            proof {
                assert(ps[j as int] =~~= (profiles@[j as int])@);
                assert(ps[j as int].name =~~= name@);
                lemma_find_profile(ps, name@);
                assert(find_profile(ps, name@) == j as int);
            }
            return Some(j);
        }
        j = j + 1;
    }
    proof {
        lemma_find_profile(ps, name@);
        if find_profile(ps, name@) >= 0 {
            assert(ps[find_profile(ps, name@)].name == name@);
            assert(false);
        }
    }
    None
}

impl Config {
    /// An empty configuration: no default profile, no overrides.
    pub fn new() -> (r: Config)
        ensures
            r.default_profile is None,
            r.profiles@.len() == 0,
    {
        Config { default_profile: None, profiles: Vec::new() }
    }

    /// Fold the configured overrides into the built-in profiles: overrides
    /// of a built-in name replace its fields, new names are appended, in
    /// file order.
    pub fn into_profiles(self) -> (r: Vec<Profile>)
        ensures
            profile_views(r@) == merged_from(builtin_profiles(), entry_views(self.profiles@), 0),
    {
        let ghost entries = entry_views(self.profiles@);
        let mut profiles = Profile::all_profiles();
        let mut rest = self.profiles;
        let ghost mut i: int = 0;
        while rest.len() > 0
            invariant
                0 <= i <= entries.len(),
                rest@.len() == entries.len() - i,
                forall|m: int|
                    0 <= m < rest@.len() ==> entry_views(rest@)[m] == entries[m + i],
                merged_from(builtin_profiles(), entries, 0) == merged_from(
                    profile_views(profiles@),
                    entries,
                    i,
                ),
            decreases rest@.len(),
        {
            let ghost ps0 = profile_views(profiles@);
            let ghost rest0 = rest@;
            let (name, pc) = rest.remove(0);
            let ghost namev = name@;
            let ghost pcv = pc@;
            proof {
                assert(entry_views(rest0)[0] == entries[i]);
                assert(entries[i].0 == namev);
                assert(entries[i].1 =~~= pcv);
                assert forall|m: int| 0 <= m < rest@.len() implies entry_views(rest@)[m]
                    == entries[m + i + 1] by {
                    assert(rest@[m] == rest0[m + 1]);
                    assert(entry_views(rest0)[m + 1] == entries[m + i + 1]);
                }
            }
            let ProfileConfig { min_level: ml, theme: th, highlights: hl } = pc;
            let level = parse_level(ml.as_str());
            let themename = if theme::theme_name_exists(th.as_str()) {
                th
            } else {
                String::from_str("matrix")
            };
            match find_profile_index(&profiles, &name) {
                Some(j) => {
                    profiles[j].min_level = level;
                    profiles[j].theme = themename;
                    profiles[j].highlights = hl;
                    proof {
                        assert(profile_views(profiles@) =~~= apply_entry(ps0, namev, pcv));
                    }
                },
                None => {
                    profiles.push(
                        Profile {
                            name: name,
                            min_level: level,
                            theme: themename,
                            highlights: hl,
                        },
                    );
                    proof {
                        assert(profile_views(profiles@) =~~= apply_entry(ps0, namev, pcv));
                    }
                },
            }
            proof {
                i = i + 1;
            }
        }
        proof {
            assert(merged_from(profile_views(profiles@), entries, i) == profile_views(profiles@));
        }
        profiles
    }
}

} // verus!
