//! Character-level helpers shared by the validation rules.
use vstd::prelude::*;

verus! {

/// The characters of `s`, in order.
pub fn chars_of(s: &str) -> (r: Vec<char>)
    ensures
        r@ == s@,
{
    let mut r: Vec<char> = Vec::new();
    for c in it: s.chars()
        invariant
            r@ == it.seq().subrange(0, it.index() as int),
    {
        r.push(c);
    }
    r
}

/// A character class used by the validation rules.
#[derive(Debug, Clone, Copy, PartialEq, Eq, Structural)]
pub enum CharClass {
    /// `a-z`, `A-Z`
    Letter,
    /// `0-9`
    Digit,
    /// `a-z`, `0-9`
    LowerAlnum,
    /// `a-z`, `A-Z`, `0-9`, `.`, `_`, `%`, `+`, `-`
    EmailLocal,
    /// `a-z`, `A-Z`, `0-9`, `.`, `-`
    EmailDomain,
    /// printable ASCII, `!` to `~`
    Printable,
    /// anything but a line feed
    NotNewline,
}

pub open spec fn is_letter(c: char) -> bool {
    ('a' <= c && c <= 'z') || ('A' <= c && c <= 'Z')
}

pub open spec fn is_digit(c: char) -> bool {
    '0' <= c && c <= '9'
}

pub open spec fn in_class(class: CharClass, c: char) -> bool {
    match class {
        CharClass::Letter => is_letter(c),
        CharClass::Digit => is_digit(c),
        CharClass::LowerAlnum => ('a' <= c && c <= 'z') || is_digit(c),
        CharClass::EmailLocal => is_letter(c) || is_digit(c) || c == '.' || c == '_' || c == '%'
            || c == '+' || c == '-',
        CharClass::EmailDomain => is_letter(c) || is_digit(c) || c == '.' || c == '-',
        CharClass::Printable => '!' <= c && c <= '~',
        CharClass::NotNewline => c != '\n',
    }
}

/// Whether `c` belongs to `class`.
pub fn char_in_class(class: CharClass, c: char) -> (r: bool)
    ensures
        r == in_class(class, c),
{
    match class {
        CharClass::Letter => ('a' <= c && c <= 'z') || ('A' <= c && c <= 'Z'),
        CharClass::Digit => '0' <= c && c <= '9',
        CharClass::LowerAlnum => ('a' <= c && c <= 'z') || ('0' <= c && c <= '9'),
        CharClass::EmailLocal => ('a' <= c && c <= 'z') || ('A' <= c && c <= 'Z') || ('0' <= c
            && c <= '9') || c == '.' || c == '_' || c == '%' || c == '+' || c == '-',
        CharClass::EmailDomain => ('a' <= c && c <= 'z') || ('A' <= c && c <= 'Z') || ('0' <= c
            && c <= '9') || c == '.' || c == '-',
        CharClass::Printable => '!' <= c && c <= '~',
        CharClass::NotNewline => c != '\n',
    }
}

/// Every character of `s` in `[lo, hi)` belongs to `class`.
pub open spec fn all_in(s: Seq<char>, lo: int, hi: int, class: CharClass) -> bool {
    forall|i: int| lo <= i < hi ==> in_class(class, #[trigger] s[i])
}

/// Some character of `s` belongs to `class`.
pub open spec fn any_in(s: Seq<char>, class: CharClass) -> bool {
    exists|i: int| 0 <= i < s.len() && in_class(class, #[trigger] s[i])
}

/// Whether every character of `cs` in `[lo, hi)` belongs to `class`.
pub fn all_chars_in(cs: &Vec<char>, lo: usize, hi: usize, class: CharClass) -> (r: bool)
    requires
        lo <= hi <= cs@.len(),
    ensures
        r == all_in(cs@, lo as int, hi as int, class),
{
    let mut i = lo;
    while i < hi
        invariant
            lo <= i <= hi <= cs@.len(),
            all_in(cs@, lo as int, i as int, class),
        decreases hi - i,
    {
        if !char_in_class(class, cs[i]) {
            return false;
        }
        i = i + 1;
    }
    true
}

/// Whether some character of `cs` belongs to `class`.
pub fn any_char_in(cs: &Vec<char>, class: CharClass) -> (r: bool)
    ensures
        r == any_in(cs@, class),
{
    let mut i: usize = 0;
    while i < cs.len()
        invariant
            i <= cs@.len(),
            forall|j: int| 0 <= j < i ==> !in_class(class, #[trigger] cs@[j]),
        decreases cs@.len() - i,
    {
        if char_in_class(class, cs[i]) {
            return true;
        }
        i = i + 1;
    }
    false
}

/// Unicode `White_Space`, the characters that `\s` matches.
pub open spec fn is_white_space(c: char) -> bool {
    let u = c as u32;
    (0x09 <= u && u <= 0x0D) || u == 0x20 || u == 0x85 || u == 0xA0 || u == 0x1680 || (0x2000
        <= u && u <= 0x200A) || u == 0x2028 || u == 0x2029 || u == 0x202F || u == 0x205F || u
        == 0x3000
}

/// Whether `c` is Unicode white space.
pub fn white_space(c: char) -> (r: bool)
    ensures
        r == is_white_space(c),
{
    let u = c as u32;
    (0x09 <= u && u <= 0x0D) || u == 0x20 || u == 0x85 || u == 0xA0 || u == 0x1680 || (0x2000
        <= u && u <= 0x200A) || u == 0x2028 || u == 0x2029 || u == 0x202F || u == 0x205F || u
        == 0x3000
}

/// Whether `a` and `b` hold the same characters.
pub fn same_chars(a: &str, b: &str) -> (r: bool)
    ensures
        r == (a@ == b@),
{
    let x = chars_of(a);
    let y = chars_of(b);
    if x.len() != y.len() {
        return false;
    }
    let mut i: usize = 0;
    while i < x.len()
        invariant
            x@ == a@,
            y@ == b@,
            x@.len() == y@.len(),
            i <= x@.len(),
            forall|j: int| 0 <= j < i ==> x@[j] == y@[j],
        decreases x@.len() - i,
    {
        if x[i] != y[i] {
            assert(x@[i as int] != y@[i as int]);
            return false;
        }
        i = i + 1;
    }
    assert(x@ =~= y@);
    true
}

} // verus!
