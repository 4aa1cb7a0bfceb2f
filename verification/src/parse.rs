//! Line canonicalization: severity levels, severity detection, and the
//! redaction passes that turn a raw log line into its clustering signature.
//!
//! Each redaction pass scans the line left to right. At every position it
//! tries to match one token grammar (a timestamp, a UUID, an address, ...);
//! on a match it emits a fixed placeholder and continues after the token,
//! otherwise it copies one character. The ANSI passes work the same way with
//! an empty replacement.

use vstd::prelude::*;
use crate::util;

verus! {

/// A log line's severity, as detected from its text.
#[derive(Debug, Clone, Copy, PartialEq, Eq, Hash, Structural)]
pub enum Level {
    Trace,
    Debug,
    Info,
    Warn,
    Error,
    Unknown,
}

impl Level {
    /// Numeric rank of a level; `Unknown` shares `Info`'s rank.
    pub open spec fn spec_severity(self) -> u8 {
        match self {
            Level::Trace => 0,
            Level::Debug => 1,
            Level::Info => 2,
            Level::Unknown => 2,
            Level::Warn => 3,
            Level::Error => 4,
        }
    }

    /// Numeric severity rank used for filtering and escalation.
    #[verifier::when_used_as_spec(spec_severity)]
    pub fn severity(self) -> (r: u8)
        ensures
            r == self.spec_severity(),
    {
        match self {
            Level::Trace => 0,
            Level::Debug => 1,
            Level::Info => 2,
            Level::Unknown => 2,
            Level::Warn => 3,
            Level::Error => 4,
        }
    }

    /// Full name of the level.
    pub fn as_str(self) -> (r: &'static str)
        ensures
            r@ == self.spec_as_str(),
    {
        match self {
            Level::Trace => "TRACE",
            Level::Debug => "DEBUG",
            Level::Info => "INFO",
            Level::Warn => "WARN",
            Level::Error => "ERROR",
            Level::Unknown => "???",
        }
    }

    pub open spec fn spec_as_str(self) -> Seq<char> {
        match self {
            Level::Trace => "TRACE"@,
            Level::Debug => "DEBUG"@,
            Level::Info => "INFO"@,
            Level::Warn => "WARN"@,
            Level::Error => "ERROR"@,
            Level::Unknown => "???"@,
        }
    }

    /// Three-letter abbreviation of the level.
    pub fn short(self) -> (r: &'static str)
        ensures
            r@ == self.spec_short(),
    {
        match self {
            Level::Trace => "TRC",
            Level::Debug => "DBG",
            Level::Info => "INF",
            Level::Warn => "WRN",
            Level::Error => "ERR",
            Level::Unknown => "???",
        }
    }

    pub open spec fn spec_short(self) -> Seq<char> {
        match self {
            Level::Trace => "TRC"@,
            Level::Debug => "DBG"@,
            Level::Info => "INF"@,
            Level::Warn => "WRN"@,
            Level::Error => "ERR"@,
            Level::Unknown => "???"@,
        }
    }
}

/// One canonicalized log line, ready for the pattern store.
pub struct LogEvent {
    pub level: Level,
    pub source: String,
    pub raw: String,
    pub normalized: String,
}

// ---------------------------------------------------------------------------
// Character classes
// ---------------------------------------------------------------------------

pub open spec fn is_digit(c: char) -> bool {
    48 <= c as u32 && c as u32 <= 57
}

pub open spec fn is_hex_digit(c: char) -> bool {
    is_digit(c) || (97 <= c as u32 && c as u32 <= 102) || (65 <= c as u32 && c as u32 <= 70)
}

/// An ASCII word character, as used by the word-boundary checks.
pub open spec fn is_word(c: char) -> bool {
    is_digit(c) || (65 <= c as u32 && c as u32 <= 90) || (97 <= c as u32 && c as u32 <= 122)
        || c == '_'
}

pub open spec fn is_alpha(c: char) -> bool {
    (65 <= c as u32 && c as u32 <= 90) || (97 <= c as u32 && c as u32 <= 122)
}

/// An ASCII whitespace character.
pub open spec fn is_space(c: char) -> bool {
    c == ' ' || (9 <= c as u32 && c as u32 <= 13)
}

/// A parameter character of a CSI escape sequence: a digit or a semicolon.
pub open spec fn is_csi_param(c: char) -> bool {
    is_digit(c) || c == ';'
}

fn is_digit_c(c: char) -> (b: bool)
    ensures
        b == is_digit(c),
{
    let u = c as u32;
    48 <= u && u <= 57
}

fn is_hex_digit_c(c: char) -> (b: bool)
    ensures
        b == is_hex_digit(c),
{
    let u = c as u32;
    (48 <= u && u <= 57) || (97 <= u && u <= 102) || (65 <= u && u <= 70)
}

fn is_word_c(c: char) -> (b: bool)
    ensures
        b == is_word(c),
{
    let u = c as u32;
    (48 <= u && u <= 57) || (65 <= u && u <= 90) || (97 <= u && u <= 122) || c == '_'
}

fn is_alpha_c(c: char) -> (b: bool)
    ensures
        b == is_alpha(c),
{
    let u = c as u32;
    (65 <= u && u <= 90) || (97 <= u && u <= 122)
}

pub(crate) fn is_space_c(c: char) -> (b: bool)
    ensures
        b == is_space(c),
{
    let u = c as u32;
    c == ' ' || (9 <= u && u <= 13)
}

fn is_csi_param_c(c: char) -> (b: bool)
    ensures
        b == is_csi_param(c),
{
    let u = c as u32;
    (48 <= u && u <= 57) || c == ';'
}

// ---------------------------------------------------------------------------
// Primitive scanning helpers
// ---------------------------------------------------------------------------

/// The character at position `i` is exactly `c`.
pub open spec fn at_is(s: Seq<char>, i: int, c: char) -> bool {
    0 <= i < s.len() && s[i] == c
}

/// Length of the run of characters satisfying `f` that starts at `i`.
pub open spec fn run_len(s: Seq<char>, i: int, f: spec_fn(char) -> bool) -> int
    decreases s.len() - i,
{
    if i < 0 || i >= s.len() {
        0
    } else if f(s[i]) {
        1 + run_len(s, i + 1, f)
    } else {
        0
    }
}

pub proof fn lemma_run_len(s: Seq<char>, i: int, f: spec_fn(char) -> bool)
    ensures
        0 <= run_len(s, i, f),
        0 <= i <= s.len() ==> i + run_len(s, i, f) <= s.len(),
        forall|j: int| i <= j < i + run_len(s, i, f) ==> f(s[j]),
        0 <= i && i + run_len(s, i, f) < s.len() ==> !f(s[i + run_len(s, i, f)]),
    decreases s.len() - i,
{
    if i < 0 || i >= s.len() {
    } else if f(s[i]) {
        lemma_run_len(s, i + 1, f);
    } else {
    }
}

/// Exactly `k` digits stand at positions `i .. i + k`.
pub open spec fn digits_exact(s: Seq<char>, i: int, k: int) -> bool {
    0 <= i && 0 <= k && i + k <= s.len() && forall|j: int| i <= j < i + k ==> is_digit(s[j])
}

pub open spec fn hex_exact(s: Seq<char>, i: int, k: int) -> bool {
    0 <= i && 0 <= k && i + k <= s.len() && forall|j: int| i <= j < i + k ==> is_hex_digit(s[j])
}

fn at_ch(v: &Vec<char>, i: usize, c: char) -> (b: bool)
    ensures
        b == at_is(v@, i as int, c),
{
    i < v.len() && v[i] == c
}

/// A vector's length fits in `usize`; stated here so that guarded index
/// arithmetic in the matchers is known not to overflow.
proof fn vec_len_bound(v: &Vec<char>)
    ensures
        v@.len() <= usize::MAX,
{
    assert(v.len() == v@.len());
}

fn check_digits(v: &Vec<char>, i: usize, k: usize) -> (b: bool)
    ensures
        b == digits_exact(v@, i as int, k as int),
{
    if i > v.len() || k > v.len() - i {
        return false;
    }
    let mut j: usize = i;
    while j < i + k
        invariant
            i <= j <= i + k,
            i + k <= v.len(),
            forall|m: int| i <= m < j ==> is_digit(v@[m]),
        decreases i + k - j,
    {
        if !is_digit_c(v[j]) {
            return false;
        }
        j = j + 1;
    }
    true
}

fn check_hex(v: &Vec<char>, i: usize, k: usize) -> (b: bool)
    ensures
        b == hex_exact(v@, i as int, k as int),
{
    if i > v.len() || k > v.len() - i {
        return false;
    }
    let mut j: usize = i;
    while j < i + k
        invariant
            i <= j <= i + k,
            i + k <= v.len(),
            forall|m: int| i <= m < j ==> is_hex_digit(v@[m]),
        decreases i + k - j,
    {
        if !is_hex_digit_c(v[j]) {
            return false;
        }
        j = j + 1;
    }
    true
}

fn digit_run(v: &Vec<char>, i: usize) -> (r: usize)
    requires
        i <= v.len(),
    ensures
        r as int == run_len(v@, i as int, |c: char| is_digit(c)),
        i + r <= v.len(),
{
    let mut j: usize = i;
    while j < v.len() && is_digit_c(v[j])
        invariant
            i <= j <= v.len(),
            run_len(v@, i as int, |c: char| is_digit(c)) == j - i + run_len(
                v@,
                j as int,
                |c: char| is_digit(c),
            ),
        decreases v.len() - j,
    {
        j = j + 1;
    }
    j - i
}

fn hex_run(v: &Vec<char>, i: usize) -> (r: usize)
    requires
        i <= v.len(),
    ensures
        r as int == run_len(v@, i as int, |c: char| is_hex_digit(c)),
        i + r <= v.len(),
{
    let mut j: usize = i;
    while j < v.len() && is_hex_digit_c(v[j])
        invariant
            i <= j <= v.len(),
            run_len(v@, i as int, |c: char| is_hex_digit(c)) == j - i + run_len(
                v@,
                j as int,
                |c: char| is_hex_digit(c),
            ),
        decreases v.len() - j,
    {
        j = j + 1;
    }
    j - i
}

fn space_run(v: &Vec<char>, i: usize) -> (r: usize)
    requires
        i <= v.len(),
    ensures
        r as int == run_len(v@, i as int, |c: char| is_space(c)),
        i + r <= v.len(),
{
    let mut j: usize = i;
    while j < v.len() && is_space_c(v[j])
        invariant
            i <= j <= v.len(),
            run_len(v@, i as int, |c: char| is_space(c)) == j - i + run_len(
                v@,
                j as int,
                |c: char| is_space(c),
            ),
        decreases v.len() - j,
    {
        j = j + 1;
    }
    j - i
}

fn csi_param_run(v: &Vec<char>, i: usize) -> (r: usize)
    requires
        i <= v.len(),
    ensures
        r as int == run_len(v@, i as int, |c: char| is_csi_param(c)),
        i + r <= v.len(),
{
    let mut j: usize = i;
    while j < v.len() && is_csi_param_c(v[j])
        invariant
            i <= j <= v.len(),
            run_len(v@, i as int, |c: char| is_csi_param(c)) == j - i + run_len(
                v@,
                j as int,
                |c: char| is_csi_param(c),
            ),
        decreases v.len() - j,
    {
        j = j + 1;
    }
    j - i
}

// ---------------------------------------------------------------------------
// Token grammars, one per redaction pass
// ---------------------------------------------------------------------------

/// The redaction and stripping passes, in the order they are applied.
#[derive(Debug, Clone, Copy, PartialEq, Eq, Structural)]
pub enum Pass {
    AnsiEsc,
    AnsiJson,
    Iso,
    Syslog,
    Uuid,
    Ip,
    Hex,
    Dur,
    Num,
}

/// What a match of the pass is replaced with.
pub open spec fn placeholder(p: Pass) -> Seq<char> {
    match p {
        Pass::AnsiEsc => Seq::<char>::empty(),
        Pass::AnsiJson => Seq::<char>::empty(),
        Pass::Iso => seq!['<', 'T', 'S', '>'],
        Pass::Syslog => seq!['<', 'T', 'S', '>'],
        Pass::Uuid => seq!['<', 'U', 'U', 'I', 'D', '>'],
        Pass::Ip => seq!['<', 'I', 'P', '>'],
        Pass::Hex => seq!['<', 'H', 'E', 'X', '>'],
        Pass::Dur => seq!['<', 'D', 'U', 'R', '>'],
        Pass::Num => seq!['<', 'N', 'U', 'M', '>'],
    }
}

/// `HH:MM:SS`, eight characters starting at `i`.
pub open spec fn time8_at(s: Seq<char>, i: int) -> bool {
    digits_exact(s, i, 2) && at_is(s, i + 2, ':') && digits_exact(s, i + 3, 2) && at_is(
        s,
        i + 5,
        ':',
    ) && digits_exact(s, i + 6, 2)
}

/// Optional fractional seconds: a dot followed by at least one digit.
pub open spec fn frac_end(s: Seq<char>, j: int) -> int {
    if at_is(s, j, '.') && run_len(s, j + 1, |c: char| is_digit(c)) >= 1 {
        j + 1 + run_len(s, j + 1, |c: char| is_digit(c))
    } else {
        j
    }
}

/// `YYYY-MM-DD[T ]HH:MM:SS`, nineteen characters starting at `i`.
pub open spec fn iso_core(s: Seq<char>, i: int) -> bool {
    digits_exact(s, i, 4) && at_is(s, i + 4, '-') && digits_exact(s, i + 5, 2) && at_is(
        s,
        i + 7,
        '-',
    ) && digits_exact(s, i + 8, 2) && (at_is(s, i + 10, 'T') || at_is(s, i + 10, ' '))
        && time8_at(s, i + 11)
}

/// Optional ` UTC` or `UTC` suffix after position `j`.
pub open spec fn iso_utc_end(s: Seq<char>, j: int) -> int {
    if at_is(s, j, ' ') && at_is(s, j + 1, 'U') && at_is(s, j + 2, 'T') && at_is(s, j + 3, 'C') {
        j + 4
    } else if at_is(s, j, 'U') && at_is(s, j + 1, 'T') && at_is(s, j + 2, 'C') {
        j + 3
    } else {
        j
    }
}

/// Optional time zone: `Z`, a `+HH:MM`/`+HHMM` offset, or a `UTC` suffix.
pub open spec fn iso_tz_end(s: Seq<char>, j: int) -> int {
    if at_is(s, j, 'Z') {
        j + 1
    } else if (at_is(s, j, '+') || at_is(s, j, '-')) && digits_exact(s, j + 1, 2) {
        if at_is(s, j + 3, ':') && digits_exact(s, j + 4, 2) {
            j + 6
        } else if digits_exact(s, j + 3, 2) {
            j + 5
        } else {
            iso_utc_end(s, j)
        }
    } else {
        iso_utc_end(s, j)
    }
}

/// An ISO 8601 timestamp starting at `i`: its length, if one stands there.
pub open spec fn match_iso(s: Seq<char>, i: int) -> Option<int> {
    if iso_core(s, i) {
        Some(iso_tz_end(s, frac_end(s, i + 19)) - i)
    } else {
        None
    }
}

/// A three-letter month abbreviation starting at `i`.
pub open spec fn month_at(s: Seq<char>, i: int) -> bool {
    ||| (at_is(s, i, 'J') && at_is(s, i + 1, 'a') && at_is(s, i + 2, 'n'))
    ||| (at_is(s, i, 'F') && at_is(s, i + 1, 'e') && at_is(s, i + 2, 'b'))
    ||| (at_is(s, i, 'M') && at_is(s, i + 1, 'a') && at_is(s, i + 2, 'r'))
    ||| (at_is(s, i, 'A') && at_is(s, i + 1, 'p') && at_is(s, i + 2, 'r'))
    ||| (at_is(s, i, 'M') && at_is(s, i + 1, 'a') && at_is(s, i + 2, 'y'))
    ||| (at_is(s, i, 'J') && at_is(s, i + 1, 'u') && at_is(s, i + 2, 'n'))
    ||| (at_is(s, i, 'J') && at_is(s, i + 1, 'u') && at_is(s, i + 2, 'l'))
    ||| (at_is(s, i, 'A') && at_is(s, i + 1, 'u') && at_is(s, i + 2, 'g'))
    ||| (at_is(s, i, 'S') && at_is(s, i + 1, 'e') && at_is(s, i + 2, 'p'))
    ||| (at_is(s, i, 'O') && at_is(s, i + 1, 'c') && at_is(s, i + 2, 't'))
    ||| (at_is(s, i, 'N') && at_is(s, i + 1, 'o') && at_is(s, i + 2, 'v'))
    ||| (at_is(s, i, 'D') && at_is(s, i + 1, 'e') && at_is(s, i + 2, 'c'))
}

/// A one- or two-digit day number followed by at least one space; returns the
/// position after the spaces, or `None`.
pub open spec fn day_sp_end(s: Seq<char>, i: int) -> Option<int> {
    if digits_exact(s, i, 2) && run_len(s, i + 2, |c: char| is_space(c)) >= 1 {
        Some(i + 2 + run_len(s, i + 2, |c: char| is_space(c)))
    } else if digits_exact(s, i, 1) && run_len(s, i + 1, |c: char| is_space(c)) >= 1 {
        Some(i + 1 + run_len(s, i + 1, |c: char| is_space(c)))
    } else {
        None
    }
}

/// `DD Mon YYYY HH:MM:SS[.fff]` starting at `i`.
pub open spec fn match_syslog_dmy(s: Seq<char>, i: int) -> Option<int> {
    match day_sp_end(s, i) {
        Some(m) => if month_at(s, m) && run_len(s, m + 3, |c: char| is_space(c)) >= 1 {
            let y = m + 3 + run_len(s, m + 3, |c: char| is_space(c));
            if digits_exact(s, y, 4) && run_len(s, y + 4, |c: char| is_space(c)) >= 1 {
                let t = y + 4 + run_len(s, y + 4, |c: char| is_space(c));
                if time8_at(s, t) {
                    Some(frac_end(s, t + 8) - i)
                } else {
                    None
                }
            } else {
                None
            }
        } else {
            None
        },
        None => None,
    }
}

/// `Mon DD HH:MM:SS[.fff]` starting at `i`.
pub open spec fn match_syslog_mdt(s: Seq<char>, i: int) -> Option<int> {
    if month_at(s, i) && run_len(s, i + 3, |c: char| is_space(c)) >= 1 {
        let d = i + 3 + run_len(s, i + 3, |c: char| is_space(c));
        match day_sp_end(s, d) {
            Some(t) => if time8_at(s, t) {
                Some(frac_end(s, t + 8) - i)
            } else {
                None
            },
            None => None,
        }
    } else {
        None
    }
}

/// `DD/Mon/YYYY:HH:MM:SS` starting at `i`, twenty characters.
pub open spec fn match_syslog_clf(s: Seq<char>, i: int) -> Option<int> {
    if digits_exact(s, i, 2) && at_is(s, i + 2, '/') && month_at(s, i + 3) && at_is(s, i + 6, '/')
        && digits_exact(s, i + 7, 4) && at_is(s, i + 11, ':') && time8_at(s, i + 12) {
        Some(20)
    } else {
        None
    }
}

/// A syslog, Redis or Apache timestamp starting at `i` on a word boundary.
pub open spec fn match_syslog(s: Seq<char>, i: int, pw: bool) -> Option<int> {
    if pw {
        None
    } else if match_syslog_dmy(s, i) is Some {
        match_syslog_dmy(s, i)
    } else if match_syslog_mdt(s, i) is Some {
        match_syslog_mdt(s, i)
    } else {
        match_syslog_clf(s, i)
    }
}

/// An RFC 4122 UUID starting at `i`: 8-4-4-4-12 hex digits.
pub open spec fn match_uuid(s: Seq<char>, i: int) -> Option<int> {
    if hex_exact(s, i, 8) && at_is(s, i + 8, '-') && hex_exact(s, i + 9, 4) && at_is(
        s,
        i + 13,
        '-',
    ) && hex_exact(s, i + 14, 4) && at_is(s, i + 18, '-') && hex_exact(s, i + 19, 4) && at_is(
        s,
        i + 23,
        '-',
    ) && hex_exact(s, i + 24, 12) {
        Some(36)
    } else {
        None
    }
}

/// No word character stands at `j` (end of string counts as a boundary).
pub open spec fn boundary_after(s: Seq<char>, j: int) -> bool {
    j >= s.len() || !is_word(s[j])
}

/// One dotted-quad component of one to three digits followed by a dot;
/// returns the position after the dot.
pub open spec fn quad_dot_end(s: Seq<char>, i: int) -> Option<int> {
    let k = run_len(s, i, |c: char| is_digit(c));
    if 1 <= k <= 3 && at_is(s, i + k, '.') {
        Some(i + k + 1)
    } else {
        None
    }
}

/// A word-bounded IPv4 dotted quad starting at `i`.
pub open spec fn match_ip(s: Seq<char>, i: int, pw: bool) -> Option<int> {
    if pw {
        None
    } else {
        match quad_dot_end(s, i) {
            Some(a) => match quad_dot_end(s, a) {
                Some(b) => match quad_dot_end(s, b) {
                    Some(c) => {
                        let k = run_len(s, c, |x: char| is_digit(x));
                        if 1 <= k <= 3 && boundary_after(s, c + k) {
                            Some(c + k - i)
                        } else {
                            None
                        }
                    },
                    None => None,
                },
                None => None,
            },
            None => None,
        }
    }
}

/// A word-bounded `0x...` hexadecimal literal starting at `i`.
pub open spec fn match_hex(s: Seq<char>, i: int, pw: bool) -> Option<int> {
    if pw {
        None
    } else {
        let h = run_len(s, i + 2, |c: char| is_hex_digit(c));
        if at_is(s, i, '0') && at_is(s, i + 1, 'x') && h >= 1 && boundary_after(s, i + 2 + h) {
            Some(2 + h)
        } else {
            None
        }
    }
}

/// A duration unit (`ms`, `s`, `us`, `µs`, `ns`) at `j`, word-bounded after;
/// returns the position after the unit.
pub open spec fn unit_end(s: Seq<char>, j: int) -> Option<int> {
    if at_is(s, j, 'm') && at_is(s, j + 1, 's') && boundary_after(s, j + 2) {
        Some(j + 2)
    } else if at_is(s, j, 's') && boundary_after(s, j + 1) {
        Some(j + 1)
    } else if at_is(s, j, 'u') && at_is(s, j + 1, 's') && boundary_after(s, j + 2) {
        Some(j + 2)
    } else if at_is(s, j, 'µ') && at_is(s, j + 1, 's') && boundary_after(s, j + 2) {
        Some(j + 2)
    } else if at_is(s, j, 'n') && at_is(s, j + 1, 's') && boundary_after(s, j + 2) {
        Some(j + 2)
    } else {
        None
    }
}

/// A word-bounded duration starting at `i`: digits, an optional fraction, an
/// optional single space, and a unit.
pub open spec fn match_dur(s: Seq<char>, i: int, pw: bool) -> Option<int> {
    if pw {
        None
    } else {
        let d = run_len(s, i, |c: char| is_digit(c));
        if d >= 1 {
            let j1 = frac_end(s, i + d);
            let j2 = if 0 <= j1 < s.len() && is_space(s[j1]) {
                j1 + 1
            } else {
                j1
            };
            match unit_end(s, j2) {
                Some(e) => Some(e - i),
                None => None,
            }
        } else {
            None
        }
    }
}

/// A word-bounded bare number starting at `i`, with an optional fraction.
pub open spec fn match_num(s: Seq<char>, i: int, pw: bool) -> Option<int> {
    if pw {
        None
    } else {
        let d = run_len(s, i, |c: char| is_digit(c));
        if d >= 1 {
            let f = run_len(s, i + d + 1, |c: char| is_digit(c));
            if at_is(s, i + d, '.') && f >= 1 && boundary_after(s, i + d + 1 + f) {
                Some(d + 1 + f)
            } else if boundary_after(s, i + d) {
                Some(d)
            } else {
                None
            }
        } else {
            None
        }
    }
}

/// Position of the first BEL character at or after `j`.
pub open spec fn first_bel(s: Seq<char>, j: int) -> Option<int>
    decreases s.len() - j,
{
    if j < 0 || j >= s.len() {
        None
    } else if s[j] == '\u{7}' {
        Some(j)
    } else {
        first_bel(s, j + 1)
    }
}

/// Position of the last `ESC \` pair starting at or after `j`.
pub open spec fn last_st(s: Seq<char>, j: int) -> Option<int>
    decreases s.len() - j,
{
    if j < 0 || j + 1 >= s.len() {
        None
    } else {
        match last_st(s, j + 1) {
            Some(p) => Some(p),
            None => if s[j] == '\u{1b}' && s[j + 1] == '\\' {
                Some(j)
            } else {
                None
            },
        }
    }
}

/// An ANSI escape sequence starting at `i`: a CSI sequence, an OSC sequence
/// terminated by BEL or `ESC \`, or a two-byte escape.
pub open spec fn match_ansi_esc(s: Seq<char>, i: int) -> Option<int> {
    if !at_is(s, i, '\u{1b}') {
        None
    } else if at_is(s, i + 1, '[') {
        let r = run_len(s, i + 2, |c: char| is_csi_param(c));
        if i + 2 + r < s.len() && is_alpha(s[i + 2 + r]) {
            Some(2 + r + 1)
        } else {
            None
        }
    } else if at_is(s, i + 1, ']') {
        match first_bel(s, i + 2) {
            Some(q) => Some(q + 1 - i),
            None => match last_st(s, i + 2) {
                Some(p) => Some(p + 2 - i),
                None => None,
            },
        }
    } else if i + 1 < s.len() {
        Some(2)
    } else {
        None
    }
}

/// A JSON-encoded CSI sequence starting at `i`: the literal text `\u001b[`
/// (or `\u001B[`), parameters, and a final letter.
pub open spec fn match_ansi_json(s: Seq<char>, i: int) -> Option<int> {
    if at_is(s, i, '\\') && at_is(s, i + 1, 'u') && at_is(s, i + 2, '0') && at_is(s, i + 3, '0')
        && at_is(s, i + 4, '1') && (at_is(s, i + 5, 'b') || at_is(s, i + 5, 'B')) && at_is(
        s,
        i + 6,
        '[',
    ) {
        let r = run_len(s, i + 7, |c: char| is_csi_param(c));
        if i + 7 + r < s.len() && is_alpha(s[i + 7 + r]) {
            Some(7 + r + 1)
        } else {
            None
        }
    } else {
        None
    }
}

/// Length of the token the pass matches at position `i`, if any. `pw` says
/// whether the character before `i` is a word character.
pub open spec fn match_len(p: Pass, s: Seq<char>, i: int, pw: bool) -> Option<int> {
    match p {
        Pass::AnsiEsc => match_ansi_esc(s, i),
        Pass::AnsiJson => match_ansi_json(s, i),
        Pass::Iso => match_iso(s, i),
        Pass::Syslog => match_syslog(s, i, pw),
        Pass::Uuid => match_uuid(s, i),
        Pass::Ip => match_ip(s, i, pw),
        Pass::Hex => match_hex(s, i, pw),
        Pass::Dur => match_dur(s, i, pw),
        Pass::Num => match_num(s, i, pw),
    }
}

// ---------------------------------------------------------------------------
// The rewriting scan itself
// ---------------------------------------------------------------------------

/// What the pass produces from position `i` on, with `pw` saying whether the
/// character before `i` is a word character.
pub open spec fn rewrite_from(p: Pass, s: Seq<char>, i: int, pw: bool) -> Seq<char>
    decreases s.len() - i,
{
    if i < 0 || i >= s.len() {
        Seq::<char>::empty()
    } else {
        match match_len(p, s, i, pw) {
            Some(n) => if 1 <= n && i + n <= s.len() {
                placeholder(p) + rewrite_from(p, s, i + n, is_word(s[i + n - 1]))
            } else {
                seq![s[i]] + rewrite_from(p, s, i + 1, is_word(s[i]))
            },
            None => seq![s[i]] + rewrite_from(p, s, i + 1, is_word(s[i])),
        }
    }
}

/// One full pass over a sequence.
pub open spec fn apply_pass(p: Pass, s: Seq<char>) -> Seq<char> {
    rewrite_from(p, s, 0, false)
}

/// Whether the character before position `i` is a word character.
pub open spec fn prev_word_at(s: Seq<char>, i: int) -> bool {
    i > 0 && i <= s.len() && is_word(s[i - 1])
}

/// The pass matches nowhere in `s`.
pub open spec fn pass_clean(p: Pass, s: Seq<char>) -> bool {
    forall|i: int| 0 <= i < s.len() ==> match_len(p, s, i, prev_word_at(s, i)) is None
}

proof fn lemma_rewrite_identity_on_clean(p: Pass, s: Seq<char>, i: int)
    requires
        pass_clean(p, s),
        0 <= i <= s.len(),
    ensures
        rewrite_from(p, s, i, prev_word_at(s, i)) == s.subrange(i, s.len() as int),
    decreases s.len() - i,
{
    if i >= s.len() {
        assert(rewrite_from(p, s, i, prev_word_at(s, i)) =~= s.subrange(i, s.len() as int));
    } else {
        lemma_rewrite_identity_on_clean(p, s, i + 1);
        assert(prev_word_at(s, i + 1) == is_word(s[i]));
        assert(rewrite_from(p, s, i, prev_word_at(s, i)) =~= s.subrange(i, s.len() as int));
    }
}

/// A pass leaves a sequence unchanged when it matches nowhere in it.
pub proof fn lemma_pass_identity_on_clean(p: Pass, s: Seq<char>)
    requires
        pass_clean(p, s),
    ensures
        apply_pass(p, s) == s,
{
    lemma_rewrite_identity_on_clean(p, s, 0);
    assert(prev_word_at(s, 0) == false);
    assert(s.subrange(0, s.len() as int) =~= s);
}

fn push_placeholder(out: &mut Vec<char>, p: Pass)
    ensures
        final(out)@ == old(out)@ + placeholder(p),
{
    match p {
        Pass::AnsiEsc => {
            assert(final(out)@ =~= old(out)@ + placeholder(p));
        },
        Pass::AnsiJson => {
            assert(final(out)@ =~= old(out)@ + placeholder(p));
        },
        Pass::Iso => {
            out.push('<');
            out.push('T');
            out.push('S');
            out.push('>');
            assert(final(out)@ =~= old(out)@ + placeholder(p));
        },
        Pass::Syslog => {
            out.push('<');
            out.push('T');
            out.push('S');
            out.push('>');
            assert(final(out)@ =~= old(out)@ + placeholder(p));
        },
        Pass::Uuid => {
            out.push('<');
            out.push('U');
            out.push('U');
            out.push('I');
            out.push('D');
            out.push('>');
            assert(final(out)@ =~= old(out)@ + placeholder(p));
        },
        Pass::Ip => {
            out.push('<');
            out.push('I');
            out.push('P');
            out.push('>');
            assert(final(out)@ =~= old(out)@ + placeholder(p));
        },
        Pass::Hex => {
            out.push('<');
            out.push('H');
            out.push('E');
            out.push('X');
            out.push('>');
            assert(final(out)@ =~= old(out)@ + placeholder(p));
        },
        Pass::Dur => {
            out.push('<');
            out.push('D');
            out.push('U');
            out.push('R');
            out.push('>');
            assert(final(out)@ =~= old(out)@ + placeholder(p));
        },
        Pass::Num => {
            out.push('<');
            out.push('N');
            out.push('U');
            out.push('M');
            out.push('>');
            assert(final(out)@ =~= old(out)@ + placeholder(p));
        },
    }
}

// Executable matchers, one per grammar.

fn exec_match_iso(v: &Vec<char>, i: usize) -> (r: Option<usize>)
    ensures
        match r {
            Some(n) => match_iso(v@, i as int) == Some(n as int) && 1 <= n && i + n <= v.len(),
            None => match_iso(v@, i as int) is None,
        },
{
    proof {
        vec_len_bound(v);
    }
    if !(check_digits(v, i, 4) && at_ch(v, i + 4, '-') && check_digits(v, i + 5, 2) && at_ch(
        v,
        i + 7,
        '-',
    ) && check_digits(v, i + 8, 2) && (at_ch(v, i + 10, 'T') || at_ch(v, i + 10, ' '))
        && check_digits(v, i + 11, 2) && at_ch(v, i + 13, ':') && check_digits(v, i + 14, 2)
        && at_ch(v, i + 16, ':') && check_digits(v, i + 17, 2)) {
        return None;
    }
    let mut j: usize = i + 19;
    // fractional seconds
    if j < v.len() && v[j] == '.' {
        let f = digit_run(v, j + 1);
        if f >= 1 {
            j = j + 1 + f;
        }
    }
    assert(j == frac_end(v@, i + 19));
    // time zone
    let ghost j1 = j as int;
    if j < v.len() && v[j] == 'Z' {
        j = j + 1;
    } else if j < v.len() && (v[j] == '+' || v[j] == '-') && check_digits(v, j + 1, 2) {
        if at_ch(v, j + 3, ':') && check_digits(v, j + 4, 2) {
            j = j + 6;
        } else if check_digits(v, j + 3, 2) {
            j = j + 5;
        } else {
            j = exec_utc_end(v, j);
        }
    } else {
        j = exec_utc_end(v, j);
    }
    assert(j == iso_tz_end(v@, j1));
    Some(j - i)
}

fn exec_utc_end(v: &Vec<char>, j: usize) -> (r: usize)
    ensures
        r as int == iso_utc_end(v@, j as int),
        j <= r,
        r <= v.len() || r == j,
{
    proof {
        vec_len_bound(v);
    }
    if at_ch(v, j, ' ') && at_ch(v, j + 1, 'U') && at_ch(v, j + 2, 'T') && at_ch(v, j + 3, 'C') {
        j + 4
    } else if at_ch(v, j, 'U') && at_ch(v, j + 1, 'T') && at_ch(v, j + 2, 'C') {
        j + 3
    } else {
        j
    }
}

fn exec_month_at(v: &Vec<char>, i: usize) -> (b: bool)
    ensures
        b == month_at(v@, i as int),
{
    proof {
        vec_len_bound(v);
    }
    (at_ch(v, i, 'J') && at_ch(v, i + 1, 'a') && at_ch(v, i + 2, 'n')) || (at_ch(v, i, 'F')
        && at_ch(v, i + 1, 'e') && at_ch(v, i + 2, 'b')) || (at_ch(v, i, 'M') && at_ch(
        v,
        i + 1,
        'a',
    ) && at_ch(v, i + 2, 'r')) || (at_ch(v, i, 'A') && at_ch(v, i + 1, 'p') && at_ch(v, i + 2, 'r'))
        || (at_ch(v, i, 'M') && at_ch(v, i + 1, 'a') && at_ch(v, i + 2, 'y')) || (at_ch(v, i, 'J')
        && at_ch(v, i + 1, 'u') && at_ch(v, i + 2, 'n')) || (at_ch(v, i, 'J') && at_ch(
        v,
        i + 1,
        'u',
    ) && at_ch(v, i + 2, 'l')) || (at_ch(v, i, 'A') && at_ch(v, i + 1, 'u') && at_ch(v, i + 2, 'g'))
        || (at_ch(v, i, 'S') && at_ch(v, i + 1, 'e') && at_ch(v, i + 2, 'p')) || (at_ch(v, i, 'O')
        && at_ch(v, i + 1, 'c') && at_ch(v, i + 2, 't')) || (at_ch(v, i, 'N') && at_ch(
        v,
        i + 1,
        'o',
    ) && at_ch(v, i + 2, 'v')) || (at_ch(v, i, 'D') && at_ch(v, i + 1, 'e') && at_ch(v, i + 2, 'c'))
}

fn exec_day_sp_end(v: &Vec<char>, i: usize) -> (r: Option<usize>)
    ensures
        match r {
            Some(m) => day_sp_end(v@, i as int) == Some(m as int) && i < m <= v.len(),
            None => day_sp_end(v@, i as int) is None,
        },
{
    proof {
        vec_len_bound(v);
    }
    if check_digits(v, i, 2) {
        let sp = space_run(v, i + 2);
        if sp >= 1 {
            return Some(i + 2 + sp);
        }
    }
    if check_digits(v, i, 1) {
        let sp = space_run(v, i + 1);
        if sp >= 1 {
            // a two-digit day was ruled out above, so the second character is
            // not a digit and the one-digit reading is the only one
            return Some(i + 1 + sp);
        }
    }
    None
}

fn exec_match_syslog(v: &Vec<char>, i: usize, pw: bool) -> (r: Option<usize>)
    ensures
        match r {
            Some(n) => match_syslog(v@, i as int, pw) == Some(n as int) && 1 <= n && i + n
                <= v.len(),
            None => match_syslog(v@, i as int, pw) is None,
        },
{
    proof {
        vec_len_bound(v);
    }
    if pw {
        return None;
    }
    // DD Mon YYYY HH:MM:SS
    match exec_day_sp_end(v, i) {
        Some(m) => {
            if exec_month_at(v, m) {
                let sp = space_run(v, m + 3);
                if sp >= 1 {
                    let y = m + 3 + sp;
                    if check_digits(v, y, 4) {
                        let sp2 = space_run(v, y + 4);
                        if sp2 >= 1 {
                            let t = y + 4 + sp2;
                            if check_digits(v, t, 2) && at_ch(v, t + 2, ':') && check_digits(
                                v,
                                t + 3,
                                2,
                            ) && at_ch(v, t + 5, ':') && check_digits(v, t + 6, 2) {
                                let mut j: usize = t + 8;
                                if j < v.len() && v[j] == '.' {
                                    let f = digit_run(v, j + 1);
                                    if f >= 1 {
                                        j = j + 1 + f;
                                    }
                                }
                                assert(j == frac_end(v@, t + 8));
                                assert(match_syslog_dmy(v@, i as int) == Some(j - i as int));
                                return Some(j - i);
                            }
                        }
                    }
                }
            }
        },
        None => {},
    }
    assert(match_syslog_dmy(v@, i as int) is None);
    // Mon DD HH:MM:SS
    if exec_month_at(v, i) {
        let sp = space_run(v, i + 3);
        if sp >= 1 {
            let d = i + 3 + sp;
            match exec_day_sp_end(v, d) {
                Some(t) => {
                    if check_digits(v, t, 2) && at_ch(v, t + 2, ':') && check_digits(v, t + 3, 2)
                        && at_ch(v, t + 5, ':') && check_digits(v, t + 6, 2) {
                        let mut j: usize = t + 8;
                        if j < v.len() && v[j] == '.' {
                            let f = digit_run(v, j + 1);
                            if f >= 1 {
                                j = j + 1 + f;
                            }
                        }
                        assert(j == frac_end(v@, t + 8));
                        assert(match_syslog_mdt(v@, i as int) == Some(j - i as int));
                        return Some(j - i);
                    }
                },
                None => {},
            }
        }
    }
    assert(match_syslog_mdt(v@, i as int) is None);
    // DD/Mon/YYYY:HH:MM:SS
    if check_digits(v, i, 2) && at_ch(v, i + 2, '/') && exec_month_at(v, i + 3) && at_ch(
        v,
        i + 6,
        '/',
    ) && check_digits(v, i + 7, 4) && at_ch(v, i + 11, ':') && check_digits(v, i + 12, 2) && at_ch(
        v,
        i + 14,
        ':',
    ) && check_digits(v, i + 15, 2) && at_ch(v, i + 17, ':') && check_digits(v, i + 18, 2) {
        return Some(20);
    }
    None
}

fn exec_match_uuid(v: &Vec<char>, i: usize) -> (r: Option<usize>)
    ensures
        match r {
            Some(n) => match_uuid(v@, i as int) == Some(n as int) && 1 <= n && i + n <= v.len(),
            None => match_uuid(v@, i as int) is None,
        },
{
    proof {
        vec_len_bound(v);
    }
    if check_hex(v, i, 8) && at_ch(v, i + 8, '-') && check_hex(v, i + 9, 4) && at_ch(v, i + 13, '-')
        && check_hex(v, i + 14, 4) && at_ch(v, i + 18, '-') && check_hex(v, i + 19, 4) && at_ch(
        v,
        i + 23,
        '-',
    ) && check_hex(v, i + 24, 12) {
        Some(36)
    } else {
        None
    }
}

fn exec_boundary_after(v: &Vec<char>, j: usize) -> (b: bool)
    ensures
        b == boundary_after(v@, j as int),
{
    proof {
        vec_len_bound(v);
    }
    j >= v.len() || !is_word_c(v[j])
}

fn exec_quad_dot_end(v: &Vec<char>, i: usize) -> (r: Option<usize>)
    requires
        i <= v.len(),
    ensures
        match r {
            Some(a) => quad_dot_end(v@, i as int) == Some(a as int) && i < a <= v.len(),
            None => quad_dot_end(v@, i as int) is None,
        },
{
    proof {
        vec_len_bound(v);
    }
    let k = digit_run(v, i);
    if 1 <= k && k <= 3 && at_ch(v, i + k, '.') {
        Some(i + k + 1)
    } else {
        None
    }
}

fn exec_match_ip(v: &Vec<char>, i: usize, pw: bool) -> (r: Option<usize>)
    requires
        i <= v.len(),
    ensures
        match r {
            Some(n) => match_ip(v@, i as int, pw) == Some(n as int) && 1 <= n && i + n <= v.len(),
            None => match_ip(v@, i as int, pw) is None,
        },
{
    proof {
        vec_len_bound(v);
    }
    if pw {
        return None;
    }
    match exec_quad_dot_end(v, i) {
        Some(a) => match exec_quad_dot_end(v, a) {
            Some(b) => match exec_quad_dot_end(v, b) {
                Some(c) => {
                    let k = digit_run(v, c);
                    if 1 <= k && k <= 3 && exec_boundary_after(v, c + k) {
                        Some(c + k - i)
                    } else {
                        None
                    }
                },
                None => None,
            },
            None => None,
        },
        None => None,
    }
}

fn exec_match_hex(v: &Vec<char>, i: usize, pw: bool) -> (r: Option<usize>)
    ensures
        match r {
            Some(n) => match_hex(v@, i as int, pw) == Some(n as int) && 1 <= n && i + n <= v.len(),
            None => match_hex(v@, i as int, pw) is None,
        },
{
    proof {
        vec_len_bound(v);
    }
    if pw {
        return None;
    }
    if at_ch(v, i, '0') && at_ch(v, i + 1, 'x') {
        let h = hex_run(v, i + 2);
        if h >= 1 && exec_boundary_after(v, i + 2 + h) {
            return Some(2 + h);
        }
    }
    None
}

fn exec_unit_end(v: &Vec<char>, j: usize) -> (r: Option<usize>)
    ensures
        match r {
            Some(e) => unit_end(v@, j as int) == Some(e as int) && j < e <= v.len(),
            None => unit_end(v@, j as int) is None,
        },
{
    proof {
        vec_len_bound(v);
    }
    if at_ch(v, j, 'm') && at_ch(v, j + 1, 's') && exec_boundary_after(v, j + 2) {
        Some(j + 2)
    } else if at_ch(v, j, 's') && exec_boundary_after(v, j + 1) {
        Some(j + 1)
    } else if at_ch(v, j, 'u') && at_ch(v, j + 1, 's') && exec_boundary_after(v, j + 2) {
        Some(j + 2)
    } else if at_ch(v, j, 'µ') && at_ch(v, j + 1, 's') && exec_boundary_after(v, j + 2) {
        Some(j + 2)
    } else if at_ch(v, j, 'n') && at_ch(v, j + 1, 's') && exec_boundary_after(v, j + 2) {
        Some(j + 2)
    } else {
        None
    }
}

fn exec_match_dur(v: &Vec<char>, i: usize, pw: bool) -> (r: Option<usize>)
    requires
        i <= v.len(),
    ensures
        match r {
            Some(n) => match_dur(v@, i as int, pw) == Some(n as int) && 1 <= n && i + n <= v.len(),
            None => match_dur(v@, i as int, pw) is None,
        },
{
    proof {
        vec_len_bound(v);
    }
    if pw {
        return None;
    }
    let d = digit_run(v, i);
    if d < 1 {
        return None;
    }
    let mut j: usize = i + d;
    if j < v.len() && v[j] == '.' {
        let f = digit_run(v, j + 1);
        if f >= 1 {
            j = j + 1 + f;
        }
    }
    assert(j == frac_end(v@, i + d));
    if j < v.len() && is_space_c(v[j]) {
        j = j + 1;
    }
    match exec_unit_end(v, j) {
        Some(e) => Some(e - i),
        None => None,
    }
}

fn exec_match_num(v: &Vec<char>, i: usize, pw: bool) -> (r: Option<usize>)
    requires
        i <= v.len(),
    ensures
        match r {
            Some(n) => match_num(v@, i as int, pw) == Some(n as int) && 1 <= n && i + n <= v.len(),
            None => match_num(v@, i as int, pw) is None,
        },
{
    proof {
        vec_len_bound(v);
    }
    if pw {
        return None;
    }
    let d = digit_run(v, i);
    if d < 1 {
        return None;
    }
    if at_ch(v, i + d, '.') {
        let f = digit_run(v, i + d + 1);
        if f >= 1 && exec_boundary_after(v, i + d + 1 + f) {
            return Some(d + 1 + f);
        }
    }
    if exec_boundary_after(v, i + d) {
        return Some(d);
    }
    None
}

fn exec_first_bel(v: &Vec<char>, j: usize) -> (r: Option<usize>)
    requires
        j <= v.len(),
    ensures
        match r {
            Some(q) => first_bel(v@, j as int) == Some(q as int) && j <= q < v.len(),
            None => first_bel(v@, j as int) is None,
        },
{
    proof {
        vec_len_bound(v);
    }
    let mut k: usize = j;
    while k < v.len()
        invariant
            j <= k <= v.len(),
            first_bel(v@, j as int) == first_bel(v@, k as int),
        decreases v.len() - k,
    {
        if v[k] == '\u{7}' {
            return Some(k);
        }
        k = k + 1;
    }
    None
}

fn exec_last_st(v: &Vec<char>, j: usize) -> (r: Option<usize>)
    requires
        j <= v.len(),
    ensures
        match r {
            Some(p) => last_st(v@, j as int) == Some(p as int) && j <= p && p + 1 < v.len(),
            None => last_st(v@, j as int) is None,
        },
{
    proof {
        vec_len_bound(v);
    }
    let mut best: Option<usize> = None;
    let mut k: usize = j;
    while k < v.len() && k + 1 < v.len()
        invariant
            j <= k,
            k <= v.len() + 1,
            match best {
                Some(p) => j <= p && p + 1 < v.len() && p < k && v@[p as int] == '\u{1b}'
                    && v@[p as int + 1] == '\\' && (forall|m: int|
                    p < m < k && m + 1 < v@.len() ==> !(#[trigger] v@[m] == '\u{1b}' && v@[m + 1]
                        == '\\')),
                None => forall|m: int|
                    j <= m < k && m + 1 < v@.len() ==> !(#[trigger] v@[m] == '\u{1b}' && v@[m + 1]
                        == '\\'),
            },
        decreases v.len() - k,
    {
        if v[k] == '\u{1b}' && v[k + 1] == '\\' {
            best = Some(k);
        }
        k = k + 1;
    }
    proof {
        lemma_last_st_chars(v@, j as int, best);
    }
    best
}

/// Connects a forward scan that remembers the last `ESC \` pair with the
/// recursive definition of `last_st`.
proof fn lemma_last_st_chars(s: Seq<char>, j: int, best: Option<usize>)
    requires
        0 <= j <= s.len(),
        match best {
            Some(p) => j <= p && p + 1 < s.len() && s[p as int] == '\u{1b}' && s[p as int + 1]
                == '\\' && (forall|m: int|
                p < m && m + 1 < s.len() ==> !(#[trigger] s[m] == '\u{1b}' && s[m + 1] == '\\')),
            None => forall|m: int|
                j <= m && m + 1 < s.len() ==> !(#[trigger] s[m] == '\u{1b}' && s[m + 1] == '\\'),
        },
    ensures
        match best {
            Some(p) => last_st(s, j) == Some(p as int),
            None => last_st(s, j) is None,
        },
    decreases s.len() - j,
{
    if j + 1 >= s.len() {
    } else {
        match best {
            Some(p) => {
                if p == j {
                    lemma_last_st_chars(s, j + 1, None);
                } else {
                    lemma_last_st_chars(s, j + 1, best);
                }
            },
            None => {
                lemma_last_st_chars(s, j + 1, None);
            },
        }
    }
}

fn exec_match_ansi_esc(v: &Vec<char>, i: usize) -> (r: Option<usize>)
    requires
        i <= v.len(),
    ensures
        match r {
            Some(n) => match_ansi_esc(v@, i as int) == Some(n as int) && 1 <= n && i + n
                <= v.len(),
            None => match_ansi_esc(v@, i as int) is None,
        },
{
    proof {
        vec_len_bound(v);
    }
    if !at_ch(v, i, '\u{1b}') {
        return None;
    }
    if at_ch(v, i + 1, '[') {
        let r = csi_param_run(v, i + 2);
        if i + 2 + r < v.len() && is_alpha_c(v[i + 2 + r]) {
            return Some(2 + r + 1);
        }
        return None;
    }
    if at_ch(v, i + 1, ']') {
        match exec_first_bel(v, i + 2) {
            Some(q) => {
                return Some(q + 1 - i);
            },
            None => {
                match exec_last_st(v, i + 2) {
                    Some(p) => {
                        return Some(p + 2 - i);
                    },
                    None => {
                        return None;
                    },
                }
            },
        }
    }
    if i + 1 < v.len() {
        return Some(2);
    }
    None
}

fn exec_match_ansi_json(v: &Vec<char>, i: usize) -> (r: Option<usize>)
    ensures
        match r {
            Some(n) => match_ansi_json(v@, i as int) == Some(n as int) && 1 <= n && i + n
                <= v.len(),
            None => match_ansi_json(v@, i as int) is None,
        },
{
    proof {
        vec_len_bound(v);
    }
    if at_ch(v, i, '\\') && at_ch(v, i + 1, 'u') && at_ch(v, i + 2, '0') && at_ch(v, i + 3, '0')
        && at_ch(v, i + 4, '1') && (at_ch(v, i + 5, 'b') || at_ch(v, i + 5, 'B')) && at_ch(
        v,
        i + 6,
        '[',
    ) {
        let r = csi_param_run(v, i + 7);
        if i + 7 + r < v.len() && is_alpha_c(v[i + 7 + r]) {
            return Some(7 + r + 1);
        }
    }
    None
}

fn match_len_at(p: Pass, v: &Vec<char>, i: usize, pw: bool) -> (r: Option<usize>)
    requires
        i <= v.len(),
    ensures
        match r {
            Some(n) => match_len(p, v@, i as int, pw) == Some(n as int) && 1 <= n && i + n
                <= v.len(),
            None => match_len(p, v@, i as int, pw) is None,
        },
{
    match p {
        Pass::AnsiEsc => exec_match_ansi_esc(v, i),
        Pass::AnsiJson => exec_match_ansi_json(v, i),
        Pass::Iso => exec_match_iso(v, i),
        Pass::Syslog => exec_match_syslog(v, i, pw),
        Pass::Uuid => exec_match_uuid(v, i),
        Pass::Ip => exec_match_ip(v, i, pw),
        Pass::Hex => exec_match_hex(v, i, pw),
        Pass::Dur => exec_match_dur(v, i, pw),
        Pass::Num => exec_match_num(v, i, pw),
    }
}

/// Run one pass over a character vector.
pub fn run_pass(p: Pass, v: &Vec<char>) -> (out: Vec<char>)
    ensures
        out@ == apply_pass(p, v@),
{
    let mut out: Vec<char> = Vec::new();
    let mut i: usize = 0;
    let mut pw: bool = false;
    while i < v.len()
        invariant
            i <= v.len(),
            apply_pass(p, v@) == out@ + rewrite_from(p, v@, i as int, pw),
        decreases v.len() - i,
    {
        let ghost pre_out = out@;
        let ghost pre_i = i as int;
        let ghost pre_pw = pw;
        match match_len_at(p, v, i, pw) {
            Some(n) => {
                push_placeholder(&mut out, p);
                pw = is_word_c(v[i + n - 1]);
                i = i + n;
                proof {
                    assert(rewrite_from(p, v@, pre_i, pre_pw) == placeholder(p) + rewrite_from(
                        p,
                        v@,
                        i as int,
                        pw,
                    ));
                    assert(pre_out + rewrite_from(p, v@, pre_i, pre_pw) =~= out@ + rewrite_from(
                        p,
                        v@,
                        i as int,
                        pw,
                    ));
                }
            },
            None => {
                out.push(v[i]);
                pw = is_word_c(v[i]);
                i = i + 1;
                proof {
                    assert(rewrite_from(p, v@, pre_i, pre_pw) == seq![v@[pre_i]] + rewrite_from(
                        p,
                        v@,
                        i as int,
                        pw,
                    ));
                    assert(pre_out + rewrite_from(p, v@, pre_i, pre_pw) =~= out@ + rewrite_from(
                        p,
                        v@,
                        i as int,
                        pw,
                    ));
                }
            },
        }
    }
    proof {
        assert(rewrite_from(p, v@, i as int, pw) =~= Seq::<char>::empty());
        assert(out@ + Seq::<char>::empty() =~= out@);
    }
    out
}

// ---------------------------------------------------------------------------
// Normalization: the seven redaction passes in order
// ---------------------------------------------------------------------------

/// The signature of a line: what all seven redaction passes leave of it.
pub open spec fn norm_spec(s: Seq<char>) -> Seq<char> {
    apply_pass(
        Pass::Num,
        apply_pass(
            Pass::Dur,
            apply_pass(
                Pass::Hex,
                apply_pass(
                    Pass::Ip,
                    apply_pass(Pass::Uuid, apply_pass(Pass::Syslog, apply_pass(Pass::Iso, s))),
                ),
            ),
        ),
    )
}

/// No redaction pass matches anywhere in `s`.
pub open spec fn norm_clean(s: Seq<char>) -> bool {
    &&& pass_clean(Pass::Iso, s)
    &&& pass_clean(Pass::Syslog, s)
    &&& pass_clean(Pass::Uuid, s)
    &&& pass_clean(Pass::Ip, s)
    &&& pass_clean(Pass::Hex, s)
    &&& pass_clean(Pass::Dur, s)
    &&& pass_clean(Pass::Num, s)
}

/// Canonicalization leaves a line unchanged when no redaction pass finds a
/// token in it; on such lines it is therefore idempotent.
pub proof fn lemma_normalize_identity_on_clean(s: Seq<char>)
    requires
        norm_clean(s),
    ensures
        norm_spec(s) == s,
{
    lemma_pass_identity_on_clean(Pass::Iso, s);
    lemma_pass_identity_on_clean(Pass::Syslog, s);
    lemma_pass_identity_on_clean(Pass::Uuid, s);
    lemma_pass_identity_on_clean(Pass::Ip, s);
    lemma_pass_identity_on_clean(Pass::Hex, s);
    lemma_pass_identity_on_clean(Pass::Dur, s);
    lemma_pass_identity_on_clean(Pass::Num, s);
}

/// Redact volatile tokens from a line: timestamps, UUIDs, IPv4 addresses,
/// hexadecimal literals, durations, and bare numbers, in that order.
pub fn normalize(line: &str) -> (r: String)
    ensures
        r@ == norm_spec(line@),
{
    let v0 = util::chars_of(line);
    let v1 = run_pass(Pass::Iso, &v0);
    let v2 = run_pass(Pass::Syslog, &v1);
    let v3 = run_pass(Pass::Uuid, &v2);
    let v4 = run_pass(Pass::Ip, &v3);
    let v5 = run_pass(Pass::Hex, &v4);
    let v6 = run_pass(Pass::Dur, &v5);
    let v7 = run_pass(Pass::Num, &v6);
    util::string_of(&v7)
}

// ---------------------------------------------------------------------------
// Severity detection
// ---------------------------------------------------------------------------

/// `a` is `b` read case-insensitively, where `b` is an exact character and
/// ASCII letters may differ in case.
pub open spec fn char_eq_ci(a: char, b: char) -> bool {
    a == b || (65 <= b as u32 && b as u32 <= 90 && a as u32 == b as u32 + 32)
}

/// The needle stands at position `i` of `s`, case-insensitively.
pub open spec fn needle_at(s: Seq<char>, i: int, n: Seq<char>) -> bool {
    0 <= i && i + n.len() <= s.len() && forall|j: int|
        0 <= j < n.len() ==> char_eq_ci(s[i + j], n[j])
}

/// The needle occurs somewhere in `s`, case-insensitively.
pub open spec fn contains_ci(s: Seq<char>, n: Seq<char>) -> bool {
    exists|i: int| needle_at(s, i, n)
}

fn char_eq_ci_c(a: char, b: char) -> (r: bool)
    ensures
        r == char_eq_ci(a, b),
{
    let ua = a as u32;
    let ub = b as u32;
    a == b || (65 <= ub && ub <= 90 && ua == ub + 32)
}

fn exec_needle_at(v: &Vec<char>, i: usize, nd: &Vec<char>) -> (b: bool)
    ensures
        b == needle_at(v@, i as int, nd@),
{
    proof {
        vec_len_bound(v);
    }
    if i > v.len() || nd.len() > v.len() - i {
        return false;
    }
    let mut j: usize = 0;
    while j < nd.len()
        invariant
            j <= nd.len(),
            i + nd.len() <= v.len(),
            forall|m: int| 0 <= m < j ==> char_eq_ci(v@[i + m], nd@[m]),
        decreases nd.len() - j,
    {
        if !char_eq_ci_c(v[i + j], nd[j]) {
            return false;
        }
        j = j + 1;
    }
    true
}

fn exec_contains_ci(v: &Vec<char>, nd: &Vec<char>) -> (b: bool)
    ensures
        b == contains_ci(v@, nd@),
{
    let mut i: usize = 0;
    while i < v.len()
        invariant
            i <= v.len(),
            forall|k: int| 0 <= k < i ==> !needle_at(v@, k, nd@),
        decreases v.len() - i,
    {
        if exec_needle_at(v, i, nd) {
            return true;
        }
        i = i + 1;
    }
    if exec_needle_at(v, i, nd) {
        return true;
    }
    assert forall|k: int| !needle_at(v@, k, nd@) by {
        if k >= 0 && needle_at(v@, k, nd@) {
            assert(k + nd@.len() <= v@.len());
            assert(k <= i);
        }
    }
    false
}

/// Detected severity of a line: later checks are fallbacks for earlier ones.
pub open spec fn spec_detect_level(s: Seq<char>) -> Level {
    if contains_ci(s, "FATAL"@) || contains_ci(s, "PANIC"@) || contains_ci(s, "ERROR"@) {
        Level::Error
    } else if contains_ci(s, "WARN"@) {
        Level::Warn
    } else if contains_ci(s, "INFO"@) || contains_ci(s, " LOG:"@) || contains_ci(s, "NOTICE:"@)
        || contains_ci(s, "HINT:"@) {
        Level::Info
    } else if contains_ci(s, "DEBUG"@) || contains_ci(s, "STATEMENT:"@) || contains_ci(
        s,
        "DETAIL:"@,
    ) {
        Level::Debug
    } else if contains_ci(s, "TRACE"@) {
        Level::Trace
    } else {
        Level::Unknown
    }
}

fn contains_lit(v: &Vec<char>, lit: &str) -> (b: bool)
    ensures
        b == contains_ci(v@, lit@),
{
    let nd = util::chars_of(lit);
    exec_contains_ci(v, &nd)
}

/// Scan a line for severity keywords, case-insensitively.
pub fn detect_level(line: &str) -> (r: Level)
    ensures
        r == spec_detect_level(line@),
{
    let v = util::chars_of(line);
    if contains_lit(&v, "FATAL") || contains_lit(&v, "PANIC") || contains_lit(&v, "ERROR") {
        Level::Error
    } else if contains_lit(&v, "WARN") {
        Level::Warn
    } else if contains_lit(&v, "INFO") || contains_lit(&v, " LOG:") || contains_lit(&v, "NOTICE:")
        || contains_lit(&v, "HINT:") {
        Level::Info
    } else if contains_lit(&v, "DEBUG") || contains_lit(&v, "STATEMENT:") || contains_lit(
        &v,
        "DETAIL:",
    ) {
        Level::Debug
    } else if contains_lit(&v, "TRACE") {
        Level::Trace
    } else {
        Level::Unknown
    }
}

/// Canonicalize one raw line from a source: strip ANSI escapes, detect the
/// severity, and redact volatile tokens into the signature.
pub fn parse_line(source: &str, line: &str) -> (ev: LogEvent)
    ensures
        ev.level == spec_detect_level(util::strip_spec(line@)),
        ev.source@ == source@,
        ev.raw@ == util::strip_spec(line@),
        ev.normalized@ == norm_spec(util::strip_spec(line@)),
{
    let clean = util::strip_ansi(line);
    let level = detect_level(clean.as_str());
    let normalized = normalize(clean.as_str());
    LogEvent { level, source: String::from_str(source), raw: clean, normalized }
}

} // verus!
