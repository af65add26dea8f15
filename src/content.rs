//! Content kinds and shared scalar types.
use vstd::prelude::*;
use vstd::string::StringExecFns;
use crate::text::chars_of;

verus! {

/// Identifiers, counters and second timestamps as the store keeps them.
#[allow(non_camel_case_types)]
pub type usizedb = u32;

/// How a text body is written.
#[derive(Debug, Clone, Copy, PartialEq, Eq, Structural)]
pub enum ContentType {
    Markdown,
}

/// No line feed in `t[lo..hi)`.
pub open spec fn no_newline(t: Seq<char>, lo: int, hi: int) -> bool {
    forall|i: int| lo <= i < hi ==> #[trigger] t[i] != '\n'
}

/// `t[k]` closes an alt text: `]` followed by `(`.
pub open spec fn opens_url(t: Seq<char>, k: int) -> bool {
    t[k] == ']' && t[k + 1] == '('
}

/// A Markdown image `![alt](url)` spans `t[s..=u]`, with `t[a]` the `]`
/// that closes its alt text; neither alt text nor URL runs over a line.
pub open spec fn image_at(t: Seq<char>, s: int, a: int, u: int) -> bool {
    &&& 0 <= s
    &&& s + 2 <= a
    &&& a + 2 <= u < t.len()
    &&& t[s] == '!'
    &&& t[s + 1] == '['
    &&& t[a] == ']'
    &&& t[a + 1] == '('
    &&& t[u] == ')'
    &&& no_newline(t, s + 2, a)
    &&& no_newline(t, a + 2, u)
}

/// `(s, a, u)` is the image that a leftmost, lazy match finds: the first start,
/// then the shortest alt text, then the shortest URL.
pub open spec fn first_image(t: Seq<char>, s: int, a: int, u: int) -> bool {
    &&& image_at(t, s, a, u)
    &&& forall|s2: int, a2: int, u2: int| s2 < s ==> !image_at(t, s2, a2, u2)
    &&& forall|a2: int, u2: int| a2 < a ==> !image_at(t, s, a2, u2)
    &&& forall|u2: int| u2 < u ==> !image_at(t, s, a, u2)
}

/// Scans `[from, n)` for `]` followed by `(`, stopping at a line feed:
/// `Ok` with the first such index, or `Err` with where the scan stopped.
fn find_alt_end(cs: &Vec<char>, from: usize) -> (r: Result<usize, usize>)
    requires
        from <= cs@.len(),
    ensures
        match r {
            Ok(a) => from <= a && a + 1 < cs@.len() && opens_url(cs@, a as int) && no_newline(
                cs@,
                from as int,
                a as int,
            ) && forall|k: int| from <= k < a ==> !#[trigger] opens_url(cs@, k),
            Err(e) => from <= e <= cs@.len() && (e + 1 >= cs@.len() || cs@[e as int] == '\n')
                && no_newline(cs@, from as int, e as int) && forall|k: int|
                from <= k < e ==> !#[trigger] opens_url(cs@, k),
        },
{
    let mut a = from;
    while a < cs.len() && a + 1 < cs.len() && cs[a] != '\n'
        invariant
            from <= a <= cs@.len(),
            no_newline(cs@, from as int, a as int),
            forall|k: int| from <= k < a ==> !#[trigger] opens_url(cs@, k),
        decreases cs@.len() - a,
    {
        if cs[a] == ']' && cs[a + 1] == '(' {
            return Ok(a);
        }
        a = a + 1;
    }
    Err(a)
}

/// First index in `[from, n)` holding `)` or a line feed, or `n`.
fn find_url_end(cs: &Vec<char>, from: usize) -> (r: usize)
    requires
        from <= cs@.len(),
    ensures
        from <= r <= cs@.len(),
        forall|k: int| from <= k < r ==> #[trigger] cs@[k] != ')' && cs@[k] != '\n',
        r < cs@.len() ==> (cs@[r as int] == ')' || cs@[r as int] == '\n'),
{
    let mut u = from;
    while u < cs.len() && cs[u] != ')' && cs[u] != '\n'
        invariant
            from <= u <= cs@.len(),
            forall|k: int| from <= k < u ==> #[trigger] cs@[k] != ')' && cs@[k] != '\n',
        decreases cs@.len() - u,
    {
        u = u + 1;
    }
    u
}

impl ContentType {
    /// The URL of the first image of `content`.
    pub fn get_first_image_url(&self, content: &str) -> (r: Option<String>)
        ensures
            r is None <==> forall|s: int, a: int, u: int| !image_at(content@, s, a, u),
            r is Some ==> exists|s: int, a: int, u: int|
                first_image(content@, s, a, u) && r->0@ == content@.subrange(a + 2, u),
    {
        let cs = chars_of(content);
        let ghost t = cs@;
        let n = cs.len();
        let mut s: usize = 0;
        while s < n && s + 1 < n
            invariant
                s <= n,
                n == cs@.len(),
                t == cs@,
                t == content@,
                forall|s2: int, a2: int, u2: int| s2 < s ==> !image_at(t, s2, a2, u2),
            decreases n - s,
        {
            if cs[s] == '!' && cs[s + 1] == '[' {
                match find_alt_end(&cs, s + 2) {
                    Ok(a) => {
                        let u = find_url_end(&cs, a + 2);
                        if u < n && cs[u] == ')' {
                            proof {
                                assert(image_at(t, s as int, a as int, u as int));
                                assert forall|a2: int, u2: int| a2 < a implies !image_at(
                                    t,
                                    s as int,
                                    a2,
                                    u2,
                                ) by {
                                    if image_at(t, s as int, a2, u2) {
                                        assert(opens_url(t, a2));
                                    }
                                }
                                assert forall|u2: int| u2 < u implies !image_at(
                                    t,
                                    s as int,
                                    a as int,
                                    u2,
                                ) by {
                                    if image_at(t, s as int, a as int, u2) {
                                        assert(t[u2] == ')');
                                    }
                                }
                            }
                            let url = content.substring_char(a + 2, u);
                            let r = String::from_str(url);
                            assert(first_image(content@, s as int, a as int, u as int));
                            assert(r@ == content@.subrange(a + 2, u as int));
                            return Some(r);
                        }
                        proof {
                            let e = u as int;
                            assert forall|a2: int, u2: int| !image_at(t, s as int, a2, u2) by {
                                if image_at(t, s as int, a2, u2) {
                                    if a2 < a {
                                        assert(opens_url(t, a2));
                                    } else if a2 == a {
                                        if u2 > e && e < t.len() {
                                            assert(t[e] != '\n');
                                        }
                                        assert(t[u2] == ')');
                                    } else if a2 < e {
                                        if u2 > e && a2 + 2 <= e && e < t.len() {
                                            assert(t[e] != '\n');
                                        }
                                        if u2 < e {
                                            assert(t[u2] == ')');
                                        }
                                    } else {
                                        if a2 > e && e < t.len() {
                                            assert(t[e] != '\n');
                                        }
                                    }
                                }
                            }
                        }
                    },
                    Err(e) => {
                        proof {
                            let e = e as int;
                            assert forall|a2: int, u2: int| !image_at(t, s as int, a2, u2) by {
                                if image_at(t, s as int, a2, u2) {
                                    if a2 < e {
                                        assert(opens_url(t, a2));
                                    } else if a2 > e && e + 1 < t.len() {
                                        assert(t[e] != '\n');
                                    }
                                }
                            }
                        }
                    },
                }
            }
            proof {
                assert forall|s2: int, a2: int, u2: int| s2 < s + 1 implies !image_at(
                    t,
                    s2,
                    a2,
                    u2,
                ) by {
                    if s2 == s && image_at(t, s2, a2, u2) {
                        assert(t[s2] == '!' && t[s2 + 1] == '[');
                    }
                }
            }
            s = s + 1;
        }
        proof {
            assert forall|s2: int, a2: int, u2: int| !image_at(t, s2, a2, u2) by {
                if image_at(t, s2, a2, u2) && s2 >= s {
                    assert(s2 + 1 < n);
                }
            }
        }
        None
    }
}

} // verus!
