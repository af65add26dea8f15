//! Lists of strings kept in one text column, joined by a separator.
use vstd::prelude::*;
use vstd::string::StringExecFns;
use crate::text::chars_of;

verus! {

/// The separator between list items.
pub const SPLIT_CHAR: &'static str = "~./*\\.~";

/// The characters of the separator.
pub open spec fn sep() -> Seq<char> {
    seq!['~', '.', '/', '*', '\\', '.', '~']
}

/// The character sequences of `v`.
pub open spec fn views(v: Seq<String>) -> Seq<Seq<char>> {
    Seq::new(v.len(), |i: int| v[i]@)
}

/// `parts` joined by the separator.
pub open spec fn joined(parts: Seq<Seq<char>>) -> Seq<char>
    decreases parts.len(),
{
    if parts.len() == 0 {
        Seq::empty()
    } else if parts.len() == 1 {
        parts[0]
    } else {
        joined(parts.drop_last()) + sep() + parts.last()
    }
}

/// The separator occurs in `t` at `p`.
#[verifier::opaque]
pub open spec fn sep_at(t: Seq<char>, p: int) -> bool {
    0 <= p && p + sep().len() <= t.len() && t.subrange(p, p + sep().len()) == sep()
}

/// Where part `k` starts when `parts` are joined.
#[verifier::opaque]
pub open spec fn part_start(parts: Seq<Seq<char>>, k: int) -> int
    decreases k,
{
    if k <= 0 {
        0
    } else {
        part_start(parts, k - 1) + parts[k - 1].len() + sep().len()
    }
}

/// `parts` is `t` cut at each separator, left to right: every part lies in
/// `t` where it starts, each but the last is followed by a separator, the last
/// reaches the end, and no separator starts inside a part.
pub open spec fn split_of(t: Seq<char>, parts: Seq<Seq<char>>) -> bool {
    &&& parts.len() >= 1
    &&& forall|k: int|
        0 <= k < parts.len() ==> part_start(parts, k) + (#[trigger] parts[k]).len() <= t.len()
            && t.subrange(part_start(parts, k), part_start(parts, k) + parts[k].len())
            == parts[k]
    &&& forall|k: int|
        0 <= k < parts.len() - 1 ==> sep_at(t, part_start(parts, k) + (#[trigger] parts[k]).len())
    &&& part_start(parts, parts.len() - 1) + parts.last().len() == t.len()
    &&& forall|k: int, p: int|
        0 <= k < parts.len() && part_start(parts, k) <= p < part_start(parts, k) + (
        #[trigger] parts[k]).len() ==> !#[trigger] sep_at(t, p)
}

/// The items of `arr`, joined by [`SPLIT_CHAR`].
pub fn array_to_string(arr: &[String]) -> (r: String)
    ensures
        r@ == joined(views(arr@)),
{
    let mut r = String::new();
    let mut i: usize = 0;
    while i < arr.len()
        invariant
            i <= arr@.len(),
            r@ == joined(views(arr@.subrange(0, i as int))),
        decreases arr@.len() - i,
    {
        if i > 0 {
            r.append(SPLIT_CHAR);
        }
        r.append(arr[i].as_str());
        proof {
            let before = views(arr@.subrange(0, i as int));
            let after = views(arr@.subrange(0, i + 1));
            assert(after.drop_last() =~= before);
            reveal_strlit("~./*\\.~");
            assert(SPLIT_CHAR@ =~= sep());
            if i == 0 {
                assert(before =~= Seq::<Seq<char>>::empty());
            }
        }
        i = i + 1;
    }
    assert(arr@.subrange(0, arr@.len() as int) =~= arr@);
    r
}

/// Whether the separator occurs in `cs` at `p`.
fn sep_at_exec(cs: &Vec<char>, sp: &Vec<char>, p: usize) -> (r: bool)
    requires
        sp@ == sep(),
    ensures
        r == sep_at(cs@, p as int),
{
    if p > cs.len() || cs.len() - p < sp.len() {
        reveal(sep_at);
        return false;
    }
    let mut j: usize = 0;
    while j < sp.len()
        invariant
            sp@ == sep(),
            p + sp.len() <= cs.len(),
            j <= sp@.len(),
            forall|m: int| 0 <= m < j ==> cs@[p + m] == sp@[m],
        decreases sp@.len() - j,
    {
        assert(p + j < cs.len());
        if cs[p + j] != sp[j] {
            reveal(sep_at);
            assert(cs@.subrange(p as int, p + sep().len())[j as int] != sep()[j as int]);
            return false;
        }
        j = j + 1;
    }
    reveal(sep_at);
    assert(cs@.subrange(p as int, p + sep().len()) =~= sep());
    true
}

proof fn lemma_part_start_push(parts: Seq<Seq<char>>, x: Seq<char>, k: int)
    requires
        0 <= k <= parts.len(),
    ensures
        part_start(parts.push(x), k) == part_start(parts, k),
    decreases k,
{
    reveal(part_start);
    if k > 0 {
        lemma_part_start_push(parts, x, k - 1);
    }
}

/// Every part of `parts` lies in `t` where it starts, is followed by a
/// separator, and holds no start of one.
pub open spec fn placed(t: Seq<char>, parts: Seq<Seq<char>>) -> bool {
    &&& forall|k: int|
        0 <= k < parts.len() ==> part_start(parts, k) + (#[trigger] parts[k]).len() <= t.len()
            && t.subrange(part_start(parts, k), part_start(parts, k) + parts[k].len())
            == parts[k]
    &&& forall|k: int|
        0 <= k < parts.len() ==> sep_at(t, part_start(parts, k) + (#[trigger] parts[k]).len())
    &&& forall|k: int, p: int|
        0 <= k < parts.len() && part_start(parts, k) <= p < part_start(parts, k) + (
        #[trigger] parts[k]).len() ==> !#[trigger] sep_at(t, p)
}

proof fn lemma_place_part(t: Seq<char>, parts: Seq<Seq<char>>, x: Seq<char>, i: int)
    requires
        placed(t, parts),
        0 <= part_start(parts, parts.len() as int) <= i,
        x == t.subrange(part_start(parts, parts.len() as int), i),
        sep_at(t, i),
        forall|p: int| part_start(parts, parts.len() as int) <= p < i ==> !#[trigger] sep_at(t, p),
    ensures
        placed(t, parts.push(x)),
        part_start(parts.push(x), parts.len() + 1 as int) == i + sep().len(),
        i + sep().len() <= t.len(),
{
    let np = parts.push(x);
    let k0 = parts.len() as int;
    assert(i + sep().len() <= t.len()) by {
        reveal(sep_at);
    }
    assert(np[k0] == x);
    assert forall|k: int| 0 <= k <= parts.len() implies part_start(np, k) == part_start(parts, k) by {
        lemma_part_start_push(parts, x, k);
    }
    assert(part_start(np, parts.len() + 1 as int) == part_start(np, parts.len() as int) + x.len()
        + sep().len()) by {
        reveal(part_start);
    }
    assert forall|k: int| 0 <= k < np.len() implies part_start(np, k) + (#[trigger] np[k]).len()
        <= t.len() && t.subrange(part_start(np, k), part_start(np, k) + np[k].len()) == np[k] by {
        assert(part_start(np, k) == part_start(parts, k));
        if k < parts.len() {
            assert(np[k] == parts[k]);
        } else {
            assert(x.len() == i - part_start(parts, k0));
        }
    }
    assert forall|k: int| 0 <= k < np.len() implies sep_at(
        t,
        part_start(np, k) + (#[trigger] np[k]).len(),
    ) by {
        assert(part_start(np, k) == part_start(parts, k));
        if k < parts.len() {
            assert(np[k] == parts[k]);
        } else {
            assert(x.len() == i - part_start(parts, k0));
        }
    }
    assert forall|k: int, p: int|
        0 <= k < np.len() && part_start(np, k) <= p < part_start(np, k) + (
        #[trigger] np[k]).len() implies !#[trigger] sep_at(t, p) by {
        assert(part_start(np, k) == part_start(parts, k));
        if k < parts.len() {
            assert(np[k] == parts[k]);
        }
    }
}

proof fn lemma_last_part(t: Seq<char>, parts: Seq<Seq<char>>, x: Seq<char>)
    requires
        placed(t, parts),
        0 <= part_start(parts, parts.len() as int) <= t.len(),
        x == t.subrange(part_start(parts, parts.len() as int), t.len() as int),
        forall|p: int|
            part_start(parts, parts.len() as int) <= p < t.len() ==> !#[trigger] sep_at(t, p),
    ensures
        split_of(t, parts.push(x)),
{
    let np = parts.push(x);
    let k0 = parts.len() as int;
    assert(np[k0] == x);
    assert(np.last() == x);
    assert(part_start(np, k0) == part_start(parts, k0)) by {
        lemma_part_start_push(parts, x, k0);
    }
    assert forall|k: int| 0 <= k <= parts.len() implies part_start(np, k) == part_start(parts, k) by {
        lemma_part_start_push(parts, x, k);
    }
    assert forall|k: int| 0 <= k < np.len() implies part_start(np, k) + (#[trigger] np[k]).len()
        <= t.len() && t.subrange(part_start(np, k), part_start(np, k) + np[k].len()) == np[k] by {
        assert(part_start(np, k) == part_start(parts, k));
        if k < parts.len() {
            assert(np[k] == parts[k]);
        } else {
            assert(x.len() == t.len() - part_start(parts, k0));
        }
    }
    assert forall|k: int| 0 <= k < np.len() - 1 implies sep_at(
        t,
        part_start(np, k) + (#[trigger] np[k]).len(),
    ) by {
        assert(part_start(np, k) == part_start(parts, k));
        assert(np[k] == parts[k]);
    }
    assert forall|k: int, p: int|
        0 <= k < np.len() && part_start(np, k) <= p < part_start(np, k) + (
        #[trigger] np[k]).len() implies !#[trigger] sep_at(t, p) by {
        assert(part_start(np, k) == part_start(parts, k));
        if k < parts.len() {
            assert(np[k] == parts[k]);
        }
    }
}

/// `s` cut at each [`SPLIT_CHAR`], left to right; an empty `s` holds no items.
pub fn string_to_array(s: &str) -> (r: Vec<String>)
    ensures
        s@.len() == 0 ==> r@.len() == 0,
        s@.len() > 0 ==> split_of(s@, views(r@)),
{
    let cs = chars_of(s);
    let n = cs.len();
    let mut r: Vec<String> = Vec::new();
    if n == 0 {
        return r;
    }
    let sp: Vec<char> = vec!['~', '.', '/', '*', '\\', '.', '~'];
    assert(sp@ =~= sep());
    let mut start: usize = 0;
    let mut i: usize = 0;
    let ghost mut pv: Seq<Seq<char>> = Seq::empty();
    assert(views(r@) =~= pv);
    assert(part_start(pv, 0) == 0) by {
        reveal(part_start);
    }
    while i < n
        invariant
            n == cs@.len(),
            cs@ == s@,
            sp@ == sep(),
            start <= i <= n,
            pv == views(r@),
            start == part_start(pv, pv.len() as int),
            placed(cs@, pv),
            forall|p: int| start <= p < i ==> !#[trigger] sep_at(cs@, p),
        decreases n - i,
    {
        if sep_at_exec(&cs, &sp, i) {
            let part = String::from_str(s.substring_char(start, i));
            proof {
                lemma_place_part(cs@, pv, part@, i as int);
            }
            r.push(part);
            proof {
                pv = pv.push(part@);
                assert(views(r@) =~= pv);
            }
            start = i + 7;
            i = i + 7;
        } else {
            i = i + 1;
        }
    }
    let last = String::from_str(s.substring_char(start, n));
    proof {
        assert forall|p: int| start <= p < n implies !#[trigger] sep_at(cs@, p) by {
            if p >= i {
                reveal(sep_at);
                assert(p + sep().len() > cs@.len());
            }
        }
        lemma_last_part(cs@, pv, last@);
    }
    r.push(last);
    proof {
        assert(views(r@) =~= pv.push(last@));
    }
    r
}

} // verus!
