//! Legality rules for user-supplied text: e-mail addresses, user names,
//! passwords, titles, tags and contents.
use vstd::prelude::*;
use crate::text::{
    all_chars_in, all_in, any_char_in, any_in, chars_of, is_white_space, white_space, CharClass,
};

verus! {

/// Largest content size, in bytes.
pub const MAX_CONTENT_BYTES: usize = 65535;

/// `s[at]` is the `@` and `s[dot]` the last `.` of an e-mail address: a
/// non-empty local part of `[a-zA-Z0-9._%+-]`, a non-empty domain of
/// `[a-zA-Z0-9.-]`, a dot, and two to four letters.
pub open spec fn email_split(s: Seq<char>, at: int, dot: int) -> bool {
    &&& 0 < at
    &&& at + 1 < dot
    &&& dot + 3 <= s.len() <= dot + 5
    &&& s[at] == '@'
    &&& s[dot] == '.'
    &&& all_in(s, 0, at, CharClass::EmailLocal)
    &&& all_in(s, at + 1, dot, CharClass::EmailDomain)
    &&& all_in(s, dot + 1, s.len() as int, CharClass::Letter)
}

pub open spec fn email_ok(s: Seq<char>) -> bool {
    exists|at: int, dot: int| email_split(s, at, dot)
}

/// Five or more characters of `[a-z0-9]`.
pub open spec fn username_ok(s: Seq<char>) -> bool {
    s.len() >= 5 && all_in(s, 0, s.len() as int, CharClass::LowerAlnum)
}

/// Eight to 128 printable ASCII characters, at least one letter and one digit.
pub open spec fn password_ok(s: Seq<char>) -> bool {
    &&& 8 <= s.len() <= 128
    &&& all_in(s, 0, s.len() as int, CharClass::Printable)
    &&& any_in(s, CharClass::Letter)
    &&& any_in(s, CharClass::Digit)
}

/// A first character that is not white space, then at most 128 characters,
/// none a line feed.
pub open spec fn title_ok(s: Seq<char>) -> bool {
    &&& 1 <= s.len() <= 129
    &&& !is_white_space(s[0])
    &&& all_in(s, 1, s.len() as int, CharClass::NotNewline)
}

/// At most [`MAX_CONTENT_BYTES`] bytes once encoded in UTF-8.
pub open spec fn content_ok(s: Seq<char>) -> bool {
    vstd::utf8::encode_utf8(s).len() as usize <= MAX_CONTENT_BYTES
}

/// Whether `cs` with its `@` at `at` has a valid domain ending in a dot
/// followed by `k` letters.
fn email_tail(cs: &Vec<char>, at: usize, k: usize) -> (r: bool)
    requires
        at < cs@.len(),
        2 <= k <= 4,
        0 < at,
        cs@[at as int] == '@',
        all_in(cs@, 0, at as int, CharClass::EmailLocal),
    ensures
        r == (cs@.len() >= k + 1 && email_split(cs@, at as int, cs@.len() - 1 - k)),
{
    let n = cs.len();
    if n < k + 1 {
        return false;
    }
    let dot = n - 1 - k;
    if dot <= at + 1 || cs[dot] != '.' {
        return false;
    }
    all_chars_in(cs, dot + 1, n, CharClass::Letter) && all_chars_in(
        cs,
        at + 1,
        dot,
        CharClass::EmailDomain,
    )
}

/// Index of the first `@` of `cs`, or its length if there is none.
fn first_at(cs: &Vec<char>) -> (r: usize)
    ensures
        r <= cs@.len(),
        forall|i: int| 0 <= i < r ==> cs@[i] != '@',
        r < cs@.len() ==> cs@[r as int] == '@',
{
    let mut i: usize = 0;
    while i < cs.len() && cs[i] != '@'
        invariant
            i <= cs@.len(),
            forall|j: int| 0 <= j < i ==> cs@[j] != '@',
        decreases cs@.len() - i,
    {
        i = i + 1;
    }
    i
}

/// The legality checks.
pub struct LegalityVerification;

impl LegalityVerification {
    pub fn is_email(v: &str) -> (r: bool)
        ensures
            r == email_ok(v@),
    {
        let cs = chars_of(v);
        let at = first_at(&cs);
        proof {
            // Every split puts its `@` at the first one: local parts hold no `@`.
            assert forall|a: int, d: int| email_split(cs@, a, d) implies a == at by {
                if a < at {
                } else if a > at {
                    assert(crate::text::in_class(CharClass::EmailLocal, cs@[at as int]));
                }
            }
        }
        if at == cs.len() || at == 0 {
            return false;
        }
        if !all_chars_in(&cs, 0, at, CharClass::EmailLocal) {
            return false;
        }
        let ok = email_tail(&cs, at, 2) || email_tail(&cs, at, 3) || email_tail(&cs, at, 4);
        proof {
            if !ok {
                assert forall|a: int, d: int| !email_split(cs@, a, d) by {
                    if email_split(cs@, a, d) {
                        let k = cs@.len() - 1 - d;
                        assert(k == 2 || k == 3 || k == 4);
                    }
                }
            }
        }
        ok
    }

    pub fn is_username(v: &str) -> (r: bool)
        ensures
            r == username_ok(v@),
    {
        let cs = chars_of(v);
        cs.len() >= 5 && all_chars_in(&cs, 0, cs.len(), CharClass::LowerAlnum)
    }

    pub fn is_password(v: &str) -> (r: bool)
        ensures
            r == password_ok(v@),
    {
        let cs = chars_of(v);
        8 <= cs.len() && cs.len() <= 128 && all_chars_in(&cs, 0, cs.len(), CharClass::Printable)
            && any_char_in(&cs, CharClass::Letter) && any_char_in(&cs, CharClass::Digit)
    }

    pub fn is_title(v: &str) -> (r: bool)
        ensures
            r == title_ok(v@),
    {
        let cs = chars_of(v);
        1 <= cs.len() && cs.len() <= 129 && !white_space(cs[0]) && all_chars_in(
            &cs,
            1,
            cs.len(),
            CharClass::NotNewline,
        )
    }

    /// At most [`MAX_CONTENT_BYTES`] bytes of UTF-8.
    pub fn is_content(v: &str) -> (r: bool)
        ensures
            r == content_ok(v@),
    {
        v.len() <= MAX_CONTENT_BYTES
    }

    /// Tags follow the rule for titles.
    pub fn is_tag(v: &str) -> (r: bool)
        ensures
            r == title_ok(v@),
    {
        Self::is_title(v)
    }
}

} // verus!
