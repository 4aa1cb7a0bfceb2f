//! Small text utilities: ANSI stripping and display-oriented string helpers.

use vstd::prelude::*;
use vstd::string::StringSliceAdditionalSpecFns;
use crate::parse;

verus! {

/// Relies on `String::push`: appends one character to the string.
#[verifier::external_body]
pub(crate) fn push_char(s: &mut String, c: char)
    ensures
        final(s)@ == old(s)@.push(c),
{
    s.push(c);
}

/// Collect the characters of a string slice into a vector.
pub(crate) fn chars_of(s: &str) -> (v: Vec<char>)
    ensures
        v@ == s@,
{
    let n = s.unicode_len();
    let mut v: Vec<char> = Vec::new();
    let mut i: usize = 0;
    while i < n
        invariant
            i <= n,
            n == s@.len(),
            v@ == s@.subrange(0, i as int),
        decreases n - i,
    {
        let c = s.get_char(i);
        v.push(c);
        i = i + 1;
        assert(v@ =~= s@.subrange(0, i as int));
    }
    assert(v@ =~= s@);
    v
}

/// Build an owned string from a vector of characters.
pub(crate) fn string_of(v: &Vec<char>) -> (s: String)
    ensures
        s@ == v@,
{
    let mut s = String::new();
    let mut i: usize = 0;
    while i < v.len()
        invariant
            i <= v.len(),
            s@ == v@.subrange(0, i as int),
        decreases v.len() - i,
    {
        push_char(&mut s, v[i]);
        i = i + 1;
        assert(s@ =~= v@.subrange(0, i as int));
    }
    assert(s@ =~= v@);
    s
}

/// What stripping ANSI escapes leaves of a character sequence: first the raw
/// escape sequences are removed, then the JSON-encoded ones.
pub open spec fn strip_spec(s: Seq<char>) -> Seq<char> {
    parse::apply_pass(parse::Pass::AnsiJson, parse::apply_pass(parse::Pass::AnsiEsc, s))
}

/// A sequence with no ANSI escape sequence, raw or JSON-encoded, anywhere in it.
pub open spec fn ansi_clean(s: Seq<char>) -> bool {
    parse::pass_clean(parse::Pass::AnsiEsc, s) && parse::pass_clean(parse::Pass::AnsiJson, s)
}

/// Strip ANSI escape codes from a string: CSI and OSC sequences, two-byte
/// escapes, and JSON-encoded CSI sequences written as literal `\u001b[..`.
pub fn strip_ansi(s: &str) -> (r: String)
    ensures
        r@ == strip_spec(s@),
{
    let v = chars_of(s);
    let pass1 = parse::run_pass(parse::Pass::AnsiEsc, &v);
    let pass2 = parse::run_pass(parse::Pass::AnsiJson, &pass1);
    string_of(&pass2)
}

/// Stripping is the identity on input that holds no escape sequence, so it is
/// idempotent on already-stripped input of that shape.
pub proof fn lemma_strip_identity_on_clean(s: Seq<char>)
    requires
        ansi_clean(s),
    ensures
        strip_spec(s) == s,
{
    parse::lemma_pass_identity_on_clean(parse::Pass::AnsiEsc, s);
    parse::lemma_pass_identity_on_clean(parse::Pass::AnsiJson, s);
}


/// The views of a sequence of strings.
pub open spec fn str_views(v: Seq<String>) -> Seq<Seq<char>> {
    v.map_values(|s: String| s@)
}

/// Character-for-character equality of two string slices.
pub fn str_eq(a: &str, b: &str) -> (r: bool)
    ensures
        r == (a@ == b@),
{
    let va = chars_of(a);
    let vb = chars_of(b);
    if va.len() != vb.len() {
        return false;
    }
    let mut i: usize = 0;
    while i < va.len()
        invariant
            i <= va.len(),
            va@ == a@,
            vb@ == b@,
            va@.len() == vb@.len(),
            forall|m: int| 0 <= m < i ==> a@[m] == b@[m],
        decreases va.len() - i,
    {
        if va[i] != vb[i] {
            return false;
        }
        i = i + 1;
    }
    proof {
        assert(a@ =~= b@);
    }
    true
}


/// The line without leading and trailing whitespace.
pub open spec fn spec_trimmed(s: Seq<char>) -> Seq<char> {
    let a = crate::parse::run_len(s, 0, |c: char| parse::is_space(c));
    let b = trim_end_idx(s);
    if a < b {
        s.subrange(a, b)
    } else {
        Seq::<char>::empty()
    }
}

/// Index just after the last non-whitespace character.
pub open spec fn trim_end_idx(s: Seq<char>) -> int
    decreases s.len(),
{
    if s.len() == 0 {
        0
    } else if parse::is_space(s.last()) {
        trim_end_idx(s.drop_last())
    } else {
        s.len() as int
    }
}

/// Drop leading and trailing whitespace.
pub fn trim_spaces(s: &str) -> (r: String)
    ensures
        r@ == spec_trimmed(s@),
{
    let v = chars_of(s);
    let mut a: usize = 0;
    while a < v.len() && parse::is_space_c(v[a])
        invariant
            a <= v.len(),
            v@ == s@,
            crate::parse::run_len(s@, 0, |c: char| parse::is_space(c)) == a
                + crate::parse::run_len(s@, a as int, |c: char| parse::is_space(c)),
        decreases v.len() - a,
    {
        a = a + 1;
    }
    proof {
        assert(crate::parse::run_len(s@, 0, |c: char| parse::is_space(c)) == a);
        crate::parse::lemma_run_len(s@, 0, |c: char| parse::is_space(c));
        assert(s@.subrange(0, s@.len() as int) =~= s@);
    }
    let mut b: usize = v.len();
    while b > a && parse::is_space_c(v[b - 1])
        invariant
            a <= b <= v.len(),
            v@ == s@,
            trim_end_idx(s@) == trim_end_idx(s@.subrange(0, b as int)),
            forall|m: int| 0 <= m < a ==> parse::is_space(s@[m]),
        decreases b,
    {
        proof {
            assert(s@.subrange(0, b as int).drop_last() =~= s@.subrange(0, b - 1));
            assert(s@.subrange(0, b as int).last() == s@[b - 1]);
        }
        b = b - 1;
    }
    proof {
        if b > a {
            assert(s@.subrange(0, b as int).last() == s@[b - 1]);
            assert(!parse::is_space(s@[b - 1]));
            assert(trim_end_idx(s@.subrange(0, b as int)) == b);
        } else {
            lemma_trim_end_all_space(s@.subrange(0, b as int));
            assert(trim_end_idx(s@.subrange(0, b as int)) <= b);
        }
    }
    let mut out: Vec<char> = Vec::new();
    let mut i: usize = a;
    while i < b
        invariant
            a <= i <= b <= v.len(),
            v@ == s@,
            out@ =~= s@.subrange(a as int, i as int),
        decreases b - i,
    {
        out.push(v[i]);
        i = i + 1;
        proof {
            assert(out@ =~= s@.subrange(a as int, i as int));
        }
    }
    proof {
        if a < b {
            assert(out@ =~= spec_trimmed(s@));
        } else {
            assert(out@ =~= spec_trimmed(s@));
        }
    }
    string_of(&out)
}

proof fn lemma_trim_end_all_space(s: Seq<char>)
    ensures
        trim_end_idx(s) <= s.len(),
    decreases s.len(),
{
    if s.len() == 0 {
    } else if parse::is_space(s.last()) {
        lemma_trim_end_all_space(s.drop_last());
    }
}


/// The string without its last character; an empty string stays empty.
pub fn pop_last(s: &String) -> (r: String)
    ensures
        r@ == (if s@.len() == 0 {
            s@
        } else {
            s@.drop_last()
        }),
{
    let mut v = chars_of(s.as_str());
    if v.len() > 0 {
        v.pop();
        proof {
            assert(v@ =~= s@.drop_last());
        }
    }
    string_of(&v)
}


/// Display label of a provider kind.
pub open spec fn spec_provider_label(kind: Seq<char>) -> Seq<char> {
    if kind == "docker"@ {
        "Docker"@
    } else if kind == "azure"@ {
        "Azure"@
    } else if kind == "command"@ {
        "Command"@
    } else if kind == "file"@ {
        "File"@
    } else {
        kind
    }
}

/// Display label of a provider kind; unknown kinds show as themselves.
pub fn provider_label<'a>(kind: &'a str) -> (r: &'a str)
    ensures
        r@ == spec_provider_label(kind@),
{
    if str_eq(kind, "docker") {
        "Docker"
    } else if str_eq(kind, "azure") {
        "Azure"
    } else if str_eq(kind, "command") {
        "Command"
    } else if str_eq(kind, "file") {
        "File"
    } else {
        kind
    }
}

/// Cut a string to at most `max_len` characters; a string short enough in
/// bytes, or a zero budget, passes through whole.
pub fn truncate_str<'a>(s: &'a str, max_len: usize) -> (r: &'a str)
    ensures
        s.spec_bytes().len() as usize <= max_len || max_len == 0 ==> r@ == s@,
        s.spec_bytes().len() as usize > max_len && max_len > 0 ==> r@ == s@.subrange(
            0,
            (if max_len <= s@.len() {
                max_len as int
            } else {
                s@.len() as int
            }),
        ),
{
    if s.len() <= max_len || max_len == 0 {
        return s;
    }
    let n = s.unicode_len();
    let upto = if max_len <= n {
        max_len
    } else {
        n
    };
    s.substring_char(0, upto)
}

/// Cut a string to at most `max_len` characters, ending a cut string with an
/// ellipsis; budgets under four cut without one.
pub fn ellipsis_truncate(s: &str, max_len: usize) -> (r: String)
    ensures
        max_len < 4 ==> r@ == (if s.spec_bytes().len() as usize <= max_len || max_len == 0 {
            s@
        } else {
            s@.subrange(
                0,
                (if max_len <= s@.len() {
                    max_len as int
                } else {
                    s@.len() as int
                }),
            )
        }),
        max_len >= 4 && s@.len() <= max_len ==> r@ == s@,
        max_len >= 4 && s@.len() > max_len ==> r@ == s@.subrange(0, max_len - 1).push('\u{2026}'),
{
    if max_len < 4 {
        return String::from_str(truncate_str(s, max_len));
    }
    let n = s.unicode_len();
    if n <= max_len {
        return String::from_str(s);
    }
    let head = s.substring_char(0, max_len - 1);
    let mut r = String::from_str(head);
    push_char(&mut r, '\u{2026}');
    r
}

/// Decimal digits of a number, most significant first.
pub open spec fn dec_spec(n: int) -> Seq<char>
    decreases n,
{
    if n < 0 {
        Seq::<char>::empty()
    } else if n < 10 {
        seq![((48 + n) as u8) as char]
    } else {
        dec_spec(n / 10).push(((48 + n % 10) as u8) as char)
    }
}

/// The decimal digits of a number.
pub fn dec_digits(n: u64) -> (v: Vec<char>)
    ensures
        v@ == dec_spec(n as int),
    decreases n,
{
    if n < 10 {
        let c = ((48 + n) as u8) as char;
        let mut v: Vec<char> = Vec::new();
        v.push(c);
        proof {
            assert(v@ =~= dec_spec(n as int));
        }
        v
    } else {
        let mut v = dec_digits(n / 10);
        let c = ((48 + n % 10) as u8) as char;
        v.push(c);
        v
    }
}

/// A count in a compact display form: millions to one decimal with `M`,
/// ten thousands rounded to `k`, thousands to one decimal with `k`, and
/// small counts as they are; rounding is half-up.
pub open spec fn spec_compact(n: int) -> Seq<char> {
    if n >= 1_000_000 {
        let x = (n + 50_000) / 100_000;
        dec_spec(x / 10) + seq!['.'] + dec_spec(x % 10) + seq!['M']
    } else if n >= 10_000 {
        let x = (n + 500) / 1_000;
        dec_spec(x) + seq!['k']
    } else if n >= 1_000 {
        let x = (n + 50) / 100;
        dec_spec(x / 10) + seq!['.'] + dec_spec(x % 10) + seq!['k']
    } else {
        dec_spec(n)
    }
}

/// Compact display form of a count.
pub fn compact_count(n: u64) -> (r: String)
    ensures
        r@ == spec_compact(n as int),
{
    if n >= 1_000_000 {
        let x = ((n as u128 + 50_000) / 100_000) as u64;
        proof {
            assert(x as int == (n + 50_000) / 100_000);
        }
        let mut v = dec_digits(x / 10);
        v.push('.');
        let frac = dec_digits(x % 10);
        let mut k: usize = 0;
        while k < frac.len()
            invariant
                k <= frac@.len(),
                frac@ == dec_spec((((n + 50_000) / 100_000) % 10) as int),
                v@ =~= dec_spec((((n + 50_000) / 100_000) / 10) as int) + seq!['.']
                    + frac@.subrange(0, k as int),
            decreases frac@.len() - k,
        {
            v.push(frac[k]);
            k = k + 1;
            proof {
                assert(v@ =~= dec_spec((((n + 50_000) / 100_000) / 10) as int) + seq!['.']
                    + frac@.subrange(0, k as int));
            }
        }
        v.push('M');
        proof {
            assert(frac@.subrange(0, frac@.len() as int) =~= frac@);
            assert(v@ =~= spec_compact(n as int));
        }
        string_of(&v)
    } else if n >= 10_000 {
        let x = (n + 500) / 1_000;
        let mut v = dec_digits(x);
        v.push('k');
        proof {
            assert(v@ =~= spec_compact(n as int));
        }
        string_of(&v)
    } else if n >= 1_000 {
        let x = (n + 50) / 100;
        let mut v = dec_digits(x / 10);
        v.push('.');
        let frac = dec_digits(x % 10);
        let mut k: usize = 0;
        while k < frac.len()
            invariant
                k <= frac@.len(),
                frac@ == dec_spec((((n + 50) / 100) % 10) as int),
                v@ =~= dec_spec((((n + 50) / 100) / 10) as int) + seq!['.'] + frac@.subrange(
                    0,
                    k as int,
                ),
            decreases frac@.len() - k,
        {
            v.push(frac[k]);
            k = k + 1;
            proof {
                assert(v@ =~= dec_spec((((n + 50) / 100) / 10) as int) + seq!['.']
                    + frac@.subrange(0, k as int));
            }
        }
        v.push('k');
        proof {
            assert(frac@.subrange(0, frac@.len() as int) =~= frac@);
            assert(v@ =~= spec_compact(n as int));
        }
        string_of(&v)
    } else {
        let v = dec_digits(n);
        string_of(&v)
    }
}

/// Width of the sparkline, in buckets.
pub const SPARK_WIDTH: usize = 24;

/// The last `SPARK_WIDTH` bucket tallies, oldest first: completed buckets
/// padded on the left with zeros, the in-progress tally last.
pub open spec fn spark_values(b: Seq<u16>, cur: u16) -> Seq<u16> {
    if b.len() + 1 >= SPARK_WIDTH {
        b.subrange(b.len() - (SPARK_WIDTH - 1), b.len() as int) + seq![cur]
    } else {
        Seq::<u16>::new((SPARK_WIDTH - 1 - b.len()) as nat, |i: int| 0u16) + b + seq![cur]
    }
}

pub open spec fn sum_vals(s: Seq<u16>) -> int
    decreases s.len(),
{
    if s.len() == 0 {
        0
    } else {
        s[0] + sum_vals(s.drop_first())
    }
}

pub open spec fn cnt_nonzero(s: Seq<u16>) -> int
    decreases s.len(),
{
    if s.len() == 0 {
        0
    } else {
        (if s[0] > 0 {
            1int
        } else {
            0int
        }) + cnt_nonzero(s.drop_first())
    }
}

/// Glyph level of one bucket under the soft cap `max(3 * mean_nonzero, 1)`:
/// zero stays blank (level zero), others take one of eight block levels by
/// their rounded fraction of the cap.
pub open spec fn spark_level(v: u16, sum: int, cnt: int) -> u8 {
    if v == 0 {
        0
    } else if 3 * sum >= cnt {
        let idx = (14 * v * cnt + 3 * sum) / (6 * sum);
        ((if idx > 7 {
            7int
        } else {
            idx
        }) + 1) as u8
    } else {
        8
    }
}

/// The glyph levels of the sparkline, oldest first: level zero is a blank,
/// levels one to eight are the block glyphs from lowest to highest.
pub open spec fn spec_spark_levels(b: Seq<u16>, cur: u16) -> Seq<u8> {
    let vals = spark_values(b, cur);
    vals.map_values(|v: u16| spark_level(v, sum_vals(vals), cnt_nonzero(vals)))
}

/// Project sparkline buckets to glyph levels. When every bucket and the
/// in-progress tally are zero, all twenty-four cells are blank.
pub fn spark_levels(buckets: &Vec<u16>, current: u16) -> (r: Vec<u8>)
    ensures
        r@ == spec_spark_levels(buckets@, current),
        r@.len() == SPARK_WIDTH,
        (forall|i: int| 0 <= i < buckets@.len() ==> buckets@[i] == 0) && current == 0
            ==> forall|i: int| 0 <= i < r@.len() ==> r@[i] == 0,
{
    let ghost bs = buckets@;
    let mut vals: Vec<u16> = Vec::new();
    if buckets.len() >= SPARK_WIDTH - 1 {
        let start = buckets.len() - (SPARK_WIDTH - 1);
        let mut i: usize = start;
        while i < buckets.len()
            invariant
                start <= i <= buckets@.len(),
                start == buckets@.len() - (SPARK_WIDTH - 1),
                bs == buckets@,
                vals@ =~= bs.subrange(start as int, i as int),
            decreases buckets@.len() - i,
        {
            vals.push(buckets[i]);
            i = i + 1;
            proof {
                assert(vals@ =~= bs.subrange(start as int, i as int));
            }
        }
        vals.push(current);
        proof {
            assert(vals@ =~= spark_values(bs, current));
        }
    } else {
        let pad = SPARK_WIDTH - 1 - buckets.len();
        let mut i: usize = 0;
        while i < pad
            invariant
                i <= pad,
                vals@ =~= Seq::<u16>::new(i as nat, |k: int| 0u16),
            decreases pad - i,
        {
            vals.push(0);
            i = i + 1;
            proof {
                assert(vals@ =~= Seq::<u16>::new(i as nat, |k: int| 0u16));
            }
        }
        let mut j: usize = 0;
        while j < buckets.len()
            invariant
                j <= buckets@.len(),
                bs == buckets@,
                pad == SPARK_WIDTH - 1 - buckets@.len(),
                vals@ =~= Seq::<u16>::new(pad as nat, |k: int| 0u16) + bs.subrange(0, j as int),
            decreases buckets@.len() - j,
        {
            vals.push(buckets[j]);
            j = j + 1;
            proof {
                assert(vals@ =~= Seq::<u16>::new(pad as nat, |k: int| 0u16) + bs.subrange(
                    0,
                    j as int,
                ));
            }
        }
        vals.push(current);
        proof {
            assert(bs.subrange(0, bs.len() as int) =~= bs);
            assert(vals@ =~= spark_values(bs, current));
        }
    }
    let ghost vv = vals@;
    // the soft cap's ingredients
    let mut sum: u64 = 0;
    let mut cnt: u64 = 0;
    let mut i: usize = 0;
    proof {
        assert(vv.subrange(0, vv.len() as int) =~= vv);
    }
    while i < vals.len()
        invariant
            i <= vals@.len(),
            vv == vals@,
            vals@.len() == SPARK_WIDTH,
            sum == sum_vals(vv) - sum_vals(vv.subrange(i as int, vv.len() as int)),
            cnt == cnt_nonzero(vv) - cnt_nonzero(vv.subrange(i as int, vv.len() as int)),
            sum <= i * 65535,
            cnt <= i,
        decreases vals@.len() - i,
    {
        proof {
            assert(vv.subrange(i as int, vv.len() as int).drop_first() =~= vv.subrange(
                i + 1,
                vv.len() as int,
            ));
            assert(vv.subrange(i as int, vv.len() as int)[0] == vv[i as int]);
            lemma_sum_bounds(vv.subrange(i + 1, vv.len() as int));
        }
        sum = sum + vals[i] as u64;
        if vals[i] > 0 {
            cnt = cnt + 1;
        }
        i = i + 1;
    }
    proof {
        assert(vv.subrange(vv.len() as int, vv.len() as int) =~= Seq::<u16>::empty());
        assert(sum == sum_vals(vv));
        assert(cnt == cnt_nonzero(vv));
        lemma_sum_bounds(vv);
    }
    // map to levels
    let mut out: Vec<u8> = Vec::new();
    let mut k: usize = 0;
    while k < vals.len()
        invariant
            k <= vals@.len(),
            vv == vals@,
            sum == sum_vals(vv),
            cnt == cnt_nonzero(vv),
            0 <= sum_vals(vv),
            sum <= 24 * 65535,
            cnt <= 24,
            vals@.len() == SPARK_WIDTH,
            out@ =~= vv.subrange(0, k as int).map_values(
                |v: u16| spark_level(v, sum_vals(vv), cnt_nonzero(vv)),
            ),
        decreases vals@.len() - k,
    {
        let v = vals[k];
        proof {
            lemma_sum_elem(vv, k as int);
        }
        let lv: u8 = if v == 0 {
            0
        } else if 3 * sum >= cnt {
            let a: u64 = 14 * (v as u64);
            proof {
                assert((a as int) * (cnt as int) <= 917490 * 24) by (nonlinear_arith)
                    requires
                        a <= 917490,
                        0 <= cnt <= 24,
                ;
                assert((a as int) * (cnt as int) >= 0) by (nonlinear_arith)
                    requires
                        a >= 0,
                        cnt >= 0,
                ;
            }
            let b: u64 = a * cnt;
            let idx = (b + 3 * sum) / (6 * sum);
            (if idx > 7 {
                7u64
            } else {
                idx
            } + 1) as u8
        } else {
            8
        };
        proof {
            assert(lv == spark_level(vv[k as int], sum_vals(vv), cnt_nonzero(vv)));
        }
        out.push(lv);
        k = k + 1;
        proof {
            assert(out@ =~= vv.subrange(0, k as int).map_values(
                |v2: u16| spark_level(v2, sum_vals(vv), cnt_nonzero(vv)),
            ));
        }
    }
    proof {
        assert(vv.subrange(0, vv.len() as int) =~= vv);
        assert(out@ =~= spec_spark_levels(bs, current));
        if (forall|i2: int| 0 <= i2 < bs.len() ==> bs[i2] == 0) && current == 0 {
            assert forall|i2: int| 0 <= i2 < out@.len() implies out@[i2] == 0 by {
                assert(out@[i2] == spark_level(vv[i2], sum_vals(vv), cnt_nonzero(vv)));
                assert(vv[i2] == 0);
            }
        }
    }
    out
}

/// Each tally is at most the sum of all of them.
proof fn lemma_sum_elem(s: Seq<u16>, k: int)
    requires
        0 <= k < s.len(),
    ensures
        s[k] <= sum_vals(s),
    decreases s.len(),
{
    lemma_sum_bounds(s.drop_first());
    if k > 0 {
        lemma_sum_elem(s.drop_first(), k - 1);
        assert(s.drop_first()[k - 1] == s[k]);
    }
}

/// Sums of bucket tallies are nonnegative and bounded by the width.
proof fn lemma_sum_bounds(s: Seq<u16>)
    ensures
        0 <= sum_vals(s) <= s.len() * 65535,
        0 <= cnt_nonzero(s) <= s.len(),
    decreases s.len(),
{
    if s.len() > 0 {
        lemma_sum_bounds(s.drop_first());
    }
}

} // verus!
