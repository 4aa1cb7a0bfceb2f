//! Discovery result types and the parsing they need: candidate sources come
//! back from the provider tools as plain text, which is parsed here.

use vstd::prelude::*;
use crate::util;

verus! {

/// One running container, as reported by the container runtime.
#[derive(Debug, Clone)]
pub struct DockerContainer {
    pub name: String,
    pub image: String,
    pub status: String,
    pub id: String,
}

/// One container app, as reported by the cloud tooling.
#[derive(Debug, Clone)]
pub struct AzureContainerApp {
    pub name: String,
    pub resource_group: String,
    pub subscription_id: String,
    pub provisioning_state: String,
}

/// One result on the discovery channel.
#[derive(Debug)]
pub enum DiscoveryResult {
    Docker(Result<Vec<DockerContainer>, String>),
    Azure(Result<Vec<AzureContainerApp>, String>),
    AzureToken(Result<String, String>),
}

/// Position of the first slash at or after `j`.
pub open spec fn first_slash(s: Seq<char>, j: int) -> Option<int>
    decreases s.len() - j,
{
    if j < 0 || j >= s.len() {
        None
    } else if s[j] == '/' {
        Some(j)
    } else {
        first_slash(s, j + 1)
    }
}

/// The third slash-separated part of a resource id: for
/// `/subscriptions/{s}/resourceGroups/...` this is the subscription id.
/// Empty when the id has fewer than two slashes.
pub open spec fn spec_subscription_of(s: Seq<char>) -> Seq<char> {
    match first_slash(s, 0) {
        None => Seq::<char>::empty(),
        Some(p1) => match first_slash(s, p1 + 1) {
            None => Seq::<char>::empty(),
            Some(p2) => match first_slash(s, p2 + 1) {
                None => s.subrange(p2 + 1, s.len() as int),
                Some(p3) => s.subrange(p2 + 1, p3),
            },
        },
    }
}

fn find_slash(v: &Vec<char>, j: usize) -> (r: Option<usize>)
    requires
        j <= v.len(),
    ensures
        match r {
            Some(q) => first_slash(v@, j as int) == Some(q as int) && j <= q < v.len(),
            None => first_slash(v@, j as int) is None,
        },
{
    let mut k: usize = j;
    while k < v.len()
        invariant
            j <= k <= v.len(),
            first_slash(v@, j as int) == first_slash(v@, k as int),
        decreases v.len() - k,
    {
        if v[k] == '/' {
            return Some(k);
        }
        k = k + 1;
    }
    None
}

/// Pull the subscription id out of a full Azure resource id path.
pub fn subscription_from_resource_id(id: &str) -> (r: String)
    ensures
        r@ == spec_subscription_of(id@),
{
    let v = util::chars_of(id);
    let p1 = match find_slash(&v, 0) {
        Some(p) => p,
        None => {
            return String::new();
        },
    };
    let p2 = match find_slash(&v, p1 + 1) {
        Some(p) => p,
        None => {
            return String::new();
        },
    };
    let end = match find_slash(&v, p2 + 1) {
        Some(p) => p,
        None => v.len(),
    };
    let mut out: Vec<char> = Vec::new();
    let mut i: usize = p2 + 1;
    while i < end
        invariant
            p2 + 1 <= i <= end <= v.len(),
            out@ =~= v@.subrange(p2 + 1, i as int),
        decreases end - i,
    {
        out.push(v[i]);
        i = i + 1;
        proof {
            assert(out@ =~= v@.subrange(p2 + 1, i as int));
        }
    }
    util::string_of(&out)
}


/// A discovered container as the contracts see it.
#[verifier::ext_equal]
pub struct DockerContainerV {
    pub name: Seq<char>,
    pub image: Seq<char>,
    pub status: Seq<char>,
    pub id: Seq<char>,
}

impl View for DockerContainer {
    type V = DockerContainerV;

    open spec fn view(&self) -> DockerContainerV {
        DockerContainerV {
            name: self.name@,
            image: self.image@,
            status: self.status@,
            id: self.id@,
        }
    }
}

/// The views of a sequence of discovered containers.
pub open spec fn container_views(v: Seq<DockerContainer>) -> Seq<DockerContainerV> {
    v.map_values(|c: DockerContainer| c@)
}

/// Position of the first occurrence of `c` at or after `j`.
pub open spec fn first_ch(s: Seq<char>, j: int, c: char) -> Option<int>
    decreases s.len() - j,
{
    if j < 0 || j >= s.len() {
        None
    } else if s[j] == c {
        Some(j)
    } else {
        first_ch(s, j + 1, c)
    }
}

/// Whether every character of the line is whitespace.
pub open spec fn all_space(l: Seq<char>) -> bool {
    forall|m: int| 0 <= m < l.len() ==> crate::parse::is_space(#[trigger] l[m])
}

/// One row of container listing output: four tab-separated fields, the
/// fourth taking the rest of the line. Blank lines and lines with fewer
/// fields yield nothing. A trailing carriage return is dropped first.
pub open spec fn parse_ps_line(line: Seq<char>) -> Option<DockerContainerV> {
    let l = if line.len() > 0 && line.last() == '\r' {
        line.drop_last()
    } else {
        line
    };
    if all_space(l) {
        None
    } else {
        match first_ch(l, 0, '\t') {
            None => None,
            Some(t1) => match first_ch(l, t1 + 1, '\t') {
                None => None,
                Some(t2) => match first_ch(l, t2 + 1, '\t') {
                    None => None,
                    Some(t3) => Some(
                        DockerContainerV {
                            id: l.subrange(0, t1),
                            name: l.subrange(t1 + 1, t2),
                            image: l.subrange(t2 + 1, t3),
                            status: l.subrange(t3 + 1, l.len() as int),
                        },
                    ),
                },
            },
        }
    }
}

/// The rows of a whole container listing, one line at a time.
pub open spec fn docker_rows_from(s: Seq<char>, i: int) -> Seq<DockerContainerV>
    decreases s.len() - i,
{
    if i < 0 || i >= s.len() {
        Seq::<DockerContainerV>::empty()
    } else {
        match first_ch(s, i, '\n') {
            Some(p) => if i <= p < s.len() {
                (match parse_ps_line(s.subrange(i, p)) {
                    Some(row) => seq![row],
                    None => Seq::<DockerContainerV>::empty(),
                }) + docker_rows_from(s, p + 1)
            } else {
                Seq::<DockerContainerV>::empty()
            },
            None => match parse_ps_line(s.subrange(i, s.len() as int)) {
                Some(row) => seq![row],
                None => Seq::<DockerContainerV>::empty(),
            },
        }
    }
}

fn find_ch(v: &Vec<char>, j: usize, c: char) -> (r: Option<usize>)
    requires
        j <= v.len(),
    ensures
        match r {
            Some(q) => first_ch(v@, j as int, c) == Some(q as int) && j <= q < v.len(),
            None => first_ch(v@, j as int, c) is None,
        },
{
    let mut k: usize = j;
    while k < v.len()
        invariant
            j <= k <= v.len(),
            first_ch(v@, j as int, c) == first_ch(v@, k as int, c),
        decreases v.len() - k,
    {
        if v[k] == c {
            return Some(k);
        }
        k = k + 1;
    }
    None
}

/// Copy `v[a..b]` into an owned string.
fn copy_range(v: &Vec<char>, a: usize, b: usize) -> (r: String)
    requires
        a <= b <= v.len(),
    ensures
        r@ == v@.subrange(a as int, b as int),
{
    let mut out: Vec<char> = Vec::new();
    let mut i: usize = a;
    while i < b
        invariant
            a <= i <= b <= v.len(),
            out@ =~= v@.subrange(a as int, i as int),
        decreases b - i,
    {
        out.push(v[i]);
        i = i + 1;
        proof {
            assert(out@ =~= v@.subrange(a as int, i as int));
        }
    }
    util::string_of(&out)
}

/// Parse the line `v[a..b]` of a container listing.
#[verifier::rlimit(60)]
fn parse_ps_line_exec(v: &Vec<char>, a: usize, b: usize) -> (r: Option<DockerContainer>)
    requires
        a <= b <= v.len(),
    ensures
        match r {
            Some(c) => parse_ps_line(v@.subrange(a as int, b as int)) == Some(c@),
            None => parse_ps_line(v@.subrange(a as int, b as int)) is None,
        },
{
    let ghost line = v@.subrange(a as int, b as int);
    let end = if b > a && v[b - 1] == '\r' {
        b - 1
    } else {
        b
    };
    proof {
        if b > a && v@[b - 1] == '\r' {
            assert(line.last() == '\r');
            assert(line.drop_last() =~= v@.subrange(a as int, end as int));
        } else {
            assert(line =~= v@.subrange(a as int, end as int));
        }
    }
    let ghost l = v@.subrange(a as int, end as int);
    // a blank line yields nothing
    let mut m: usize = a;
    let mut blank = true;
    let ghost mut wit: int = 0;
    while m < end
        invariant
            a <= m <= end <= v.len(),
            l == v@.subrange(a as int, end as int),
            blank ==> forall|k: int| 0 <= k < m - a ==> crate::parse::is_space(#[trigger] l[k]),
            !blank ==> 0 <= wit < l.len() && !crate::parse::is_space(l[wit]),
        decreases end - m,
    {
        if !crate::parse::is_space_c(v[m]) {
            proof {
                assert(l[m - a] == v@[m as int]);
                wit = m - a;
            }
            blank = false;
        }
        m = m + 1;
    }
    if blank {
        proof {
            let lp = if line.len() > 0 && line.last() == '\r' {
                line.drop_last()
            } else {
                line
            };
            assert(lp == l);
            assert(all_space(lp)) by {
                assert forall|k: int| 0 <= k < lp.len() implies crate::parse::is_space(
                    #[trigger] lp[k],
                ) by {
                    assert(lp[k] == l[k]);
                }
            }
        }
        return None;
    }
    // three tabs split the four fields
    let t1 = match find_tab_in(v, a, a, end) {
        Some(t) => t,
        None => {
            return None;
        },
    };
    let t2 = match find_tab_in(v, a, t1 + 1, end) {
        Some(t) => t,
        None => {
            return None;
        },
    };
    let t3 = match find_tab_in(v, a, t2 + 1, end) {
        Some(t) => t,
        None => {
            return None;
        },
    };
    let c = DockerContainer {
        id: copy_range(v, a, t1),
        name: copy_range(v, t1 + 1, t2),
        image: copy_range(v, t2 + 1, t3),
        status: copy_range(v, t3 + 1, end),
    };
    proof {
        let lp = if line.len() > 0 && line.last() == '\r' {
            line.drop_last()
        } else {
            line
        };
        assert(lp == l);
        let row = DockerContainerV {
            id: lp.subrange(0, t1 - a),
            name: lp.subrange(t1 - a + 1, t2 - a),
            image: lp.subrange(t2 - a + 1, t3 - a),
            status: lp.subrange(t3 - a + 1, lp.len() as int),
        };
        assert(0 <= wit < lp.len() && !crate::parse::is_space(lp[wit]));
        assert(!all_space(lp)) by {
            assert(0 <= wit < lp.len());
            assert(!crate::parse::is_space(lp[wit]));
        }
        assert(first_ch(lp, 0, '\t') == Some(t1 - a));
        assert(first_ch(lp, t1 - a + 1, '\t') == Some(t2 - a));
        assert(first_ch(lp, t2 - a + 1, '\t') == Some(t3 - a));
        assert(parse_ps_line(line) == Some(row));
        assert(lp.subrange(0, t1 - a) =~= v@.subrange(a as int, t1 as int));
        assert(lp.subrange(t1 - a + 1, t2 - a) =~= v@.subrange(t1 + 1, t2 as int));
        assert(lp.subrange(t2 - a + 1, t3 - a) =~= v@.subrange(t2 + 1, t3 as int));
        assert(lp.subrange(t3 - a + 1, lp.len() as int) =~= v@.subrange(t3 + 1, end as int));
        assert(c@ =~~= row);
    }
    Some(c)
}

/// Position of the first tab in `v[j..end)`, relative to the line start `a`.
fn find_tab_in(v: &Vec<char>, a: usize, j: usize, end: usize) -> (r: Option<usize>)
    requires
        a <= j <= end <= v.len(),
    ensures
        ({
            let l = v@.subrange(a as int, end as int);
            match r {
                Some(q) => first_ch(l, j - a, '\t') == Some(q - a) && j <= q < end,
                None => first_ch(l, j - a, '\t') is None,
            }
        }),
{
    let ghost l = v@.subrange(a as int, end as int);
    let mut k: usize = j;
    while k < end
        invariant
            a <= j <= k <= end <= v.len(),
            l == v@.subrange(a as int, end as int),
            first_ch(l, j - a, '\t') == first_ch(l, k - a, '\t'),
        decreases end - k,
    {
        if v[k] == '\t' {
            proof {
                assert(l[k - a] == v@[k as int]);
            }
            return Some(k);
        }
        proof {
            assert(l[k - a] == v@[k as int]);
        }
        k = k + 1;
    }
    None
}

/// Parse container listing output: one row per line of four tab-separated
/// fields (id, name, image, status); blank and malformed lines are skipped.
pub fn parse_docker_ps(text: &str) -> (r: Vec<DockerContainer>)
    ensures
        container_views(r@) == docker_rows_from(text@, 0),
{
    let v = util::chars_of(text);
    let mut out: Vec<DockerContainer> = Vec::new();
    let mut i: usize = 0;
    while i < v.len()
        invariant
            i <= v.len(),
            v@ == text@,
            docker_rows_from(text@, 0) == container_views(out@) + docker_rows_from(
                text@,
                i as int,
            ),
        decreases v.len() - i,
    {
        let ghost out0 = container_views(out@);
        match find_ch(&v, i, '\n') {
            Some(p) => {
                let parsed = parse_ps_line_exec(&v, i, p);
                proof {
                    assert(docker_rows_from(text@, i as int) == (match parse_ps_line(
                        v@.subrange(i as int, p as int),
                    ) {
                        Some(row) => seq![row],
                        None => Seq::<DockerContainerV>::empty(),
                    }) + docker_rows_from(text@, p + 1));
                }
                match parsed {
                    Some(c) => {
                        let ghost cv = c@;
                        out.push(c);
                        proof {
                            assert(container_views(out@) =~~= out0 + seq![cv]);
                            assert(out0 + (seq![cv] + docker_rows_from(text@, p + 1)) =~~= (out0
                                + seq![cv]) + docker_rows_from(text@, p + 1));
                        }
                    },
                    None => {
                        proof {
                            assert(out0 + (Seq::<DockerContainerV>::empty() + docker_rows_from(
                                text@,
                                p + 1,
                            )) =~~= out0 + docker_rows_from(text@, p + 1));
                        }
                    },
                }
                i = p + 1;
            },
            None => {
                // the unterminated last line
                let parsed = parse_ps_line_exec(&v, i, v.len());
                proof {
                    assert(v@.subrange(i as int, v@.len() as int) == v@.subrange(
                        i as int,
                        v@.len() as int,
                    ));
                }
                match parsed {
                    Some(c) => {
                        let ghost cv = c@;
                        out.push(c);
                        proof {
                            assert(docker_rows_from(text@, i as int) =~~= seq![cv]);
                            assert(container_views(out@) =~~= out0 + seq![cv]);
                        }
                    },
                    None => {
                        proof {
                            assert(docker_rows_from(text@, i as int) =~~= Seq::<
                                DockerContainerV,
                            >::empty());
                            assert(out0 + Seq::<DockerContainerV>::empty() =~~= out0);
                        }
                    },
                }
                proof {
                    assert(container_views(out@) == docker_rows_from(text@, 0));
                }
                return out;
            },
        }
    }
    proof {
        assert(docker_rows_from(text@, i as int) =~~= Seq::<DockerContainerV>::empty());
        assert(container_views(out@) + Seq::<DockerContainerV>::empty() =~~= container_views(
            out@,
        ));
    }
    out
}

} // verus!
