//! Theme names and the cycling order between them. The palettes themselves
//! are presentation data and live with the renderer; the library only
//! validates and cycles the names.

use vstd::prelude::*;
use crate::util;

verus! {

/// The known theme names, in cycling order.
pub open spec fn theme_names() -> Seq<Seq<char>> {
    seq![
        "matrix"@,
        "nebula"@,
        "frostbyte"@,
        "ember"@,
        "deepwave"@,
        "signal"@,
        "obsidian"@,
        "mono"@,
    ]
}

/// Whether the name names a known theme.
pub open spec fn spec_theme_exists(name: Seq<char>) -> bool {
    theme_names().contains(name)
}

/// The name after the given one in cycling order; an unknown name is treated
/// as the first, so its successor is the second.
pub open spec fn spec_next_theme(name: Seq<char>) -> Seq<char> {
    if name == "matrix"@ {
        "nebula"@
    } else if name == "nebula"@ {
        "frostbyte"@
    } else if name == "frostbyte"@ {
        "ember"@
    } else if name == "ember"@ {
        "deepwave"@
    } else if name == "deepwave"@ {
        "signal"@
    } else if name == "signal"@ {
        "obsidian"@
    } else if name == "obsidian"@ {
        "mono"@
    } else if name == "mono"@ {
        "matrix"@
    } else {
        "nebula"@
    }
}

/// All theme names, in cycling order.
pub fn all_theme_names() -> (r: Vec<String>)
    ensures
        util::str_views(r@) =~= theme_names(),
{
    let mut v: Vec<String> = Vec::new();
    v.push(String::from_str("matrix"));
    v.push(String::from_str("nebula"));
    v.push(String::from_str("frostbyte"));
    v.push(String::from_str("ember"));
    v.push(String::from_str("deepwave"));
    v.push(String::from_str("signal"));
    v.push(String::from_str("obsidian"));
    v.push(String::from_str("mono"));
    proof {
        assert(util::str_views(v@) =~= theme_names());
    }
    v
}

/// Whether the name names a known theme.
pub fn theme_name_exists(name: &str) -> (r: bool)
    ensures
        r == spec_theme_exists(name@),
{
    let r = util::str_eq(name, "matrix") || util::str_eq(name, "nebula") || util::str_eq(
        name,
        "frostbyte",
    ) || util::str_eq(name, "ember") || util::str_eq(name, "deepwave") || util::str_eq(
        name,
        "signal",
    ) || util::str_eq(name, "obsidian") || util::str_eq(name, "mono");
    proof {
        if r {
            assert(spec_theme_exists(name@));
        } else {
            assert forall|i: int| 0 <= i < theme_names().len() implies theme_names()[i]
                != name@ by {
            }
        }
    }
    r
}

/// The name after the given one in cycling order.
pub fn next_theme_name(name: &str) -> (r: String)
    ensures
        r@ == spec_next_theme(name@),
{
    if util::str_eq(name, "matrix") {
        String::from_str("nebula")
    } else if util::str_eq(name, "nebula") {
        String::from_str("frostbyte")
    } else if util::str_eq(name, "frostbyte") {
        String::from_str("ember")
    } else if util::str_eq(name, "ember") {
        String::from_str("deepwave")
    } else if util::str_eq(name, "deepwave") {
        String::from_str("signal")
    } else if util::str_eq(name, "signal") {
        String::from_str("obsidian")
    } else if util::str_eq(name, "obsidian") {
        String::from_str("mono")
    } else if util::str_eq(name, "mono") {
        String::from_str("matrix")
    } else {
        String::from_str("nebula")
    }
}

} // verus!
