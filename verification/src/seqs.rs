//! Small verified helpers over byte sequences: first-occurrence search,
//! prefix tests, subrange extraction and equality.

use vstd::prelude::*;

verus! {

/// Index of the first occurrence of `x` in `s`, if any.
pub open spec fn find_index<T>(s: Seq<T>, x: T) -> Option<int>
    decreases s.len(),
{
    if s.len() == 0 {
        None
    } else if s[0] == x {
        Some(0int)
    } else {
        match find_index(s.skip(1), x) {
            Some(i) => Some(i + 1),
            None => None,
        }
    }
}

/// `find_index` returns the least index holding `x`, or `None` when `x`
/// does not occur.
pub proof fn lemma_find_index<T>(s: Seq<T>, x: T)
    ensures
        match find_index(s, x) {
            Some(i) => 0 <= i < s.len() && s[i] == x && (forall|j: int|
                0 <= j < i ==> s[j] != x),
            None => forall|j: int| 0 <= j < s.len() ==> s[j] != x,
        },
    decreases s.len(),
{
    if s.len() != 0 && s[0] != x {
        lemma_find_index(s.skip(1), x);
        match find_index(s.skip(1), x) {
            Some(i) => {
                assert forall|j: int| 0 <= j < i + 1 implies s[j] != x by {
                    if j > 0 {
                        assert(s.skip(1)[j - 1] == s[j]);
                    }
                }
            },
            None => {
                assert forall|j: int| 0 <= j < s.len() implies s[j] != x by {
                    if j > 0 {
                        assert(s.skip(1)[j - 1] == s[j]);
                    }
                }
            },
        }
    }
}

/// `p` is a prefix of `s`.
pub open spec fn begins_with<T>(s: Seq<T>, p: Seq<T>) -> bool {
    p.len() <= s.len() && s.take(p.len() as int) == p
}

/// Index of the first occurrence of the block `p` inside `s`, if any.
pub open spec fn find_block(s: Seq<u8>, p: Seq<u8>) -> Option<int>
    decreases s.len(),
{
    if p.len() == 0 {
        Some(0int)
    } else if s.len() < p.len() {
        None
    } else if s.subrange(0, p.len() as int) == p {
        Some(0int)
    } else {
        match find_block(s.skip(1), p) {
            Some(i) => Some(i + 1),
            None => None,
        }
    }
}

/// `find_block` returns the least index at which `p` occurs as a
/// contiguous block, or `None` when it occurs nowhere.
pub proof fn lemma_find_block(s: Seq<u8>, p: Seq<u8>)
    ensures
        match find_block(s, p) {
            Some(i) => 0 <= i && i + p.len() <= s.len() && s.subrange(i, i + p.len()) == p
                && (forall|j: int|
                0 <= j < i ==> #[trigger] s.subrange(j, j + p.len()) != p),
            None => forall|j: int| 0 <= j && j + p.len() <= s.len() ==> #[trigger] s.subrange(
                j,
                j + p.len(),
            ) != p,
        },
    decreases s.len(),
{
    if p.len() != 0 && s.len() >= p.len() && s.subrange(0, p.len() as int) != p {
        lemma_find_block(s.skip(1), p);
        assert forall|j: int| 1 <= j && j + p.len() <= s.len() implies s.skip(1).subrange(
            j - 1,
            j - 1 + p.len(),
        ) =~= #[trigger] s.subrange(j, j + p.len()) by {}
        match find_block(s.skip(1), p) {
            Some(i) => {
                assert(s.subrange(i + 1, i + 1 + p.len()) =~= s.skip(1).subrange(
                    i,
                    i + p.len(),
                ));
            },
            None => {},
        }
    }
}

/// First occurrence of the byte `b` in `v`, as the executable twin of
/// `find_index`.
pub fn find_byte(v: &Vec<u8>, b: u8) -> (r: Option<usize>)
    ensures
        match r {
            Some(i) => find_index(v@, b) == Some(i as int),
            None => find_index(v@, b) is None,
        },
{
    let mut i: usize = 0;
    while i < v.len()
        invariant
            0 <= i <= v@.len(),
            forall|j: int| 0 <= j < i ==> v@[j] != b,
        decreases v@.len() - i,
    {
        if v[i] == b {
            proof {
                lemma_find_index(v@, b);
            }
            return Some(i);
        }
        i = i + 1;
    }
    proof {
        lemma_find_index(v@, b);
    }
    None
}

/// First occurrence of the block `p` in `v`, as the executable twin of
/// `find_block`.
pub fn find_block_in(v: &Vec<u8>, p: &Vec<u8>) -> (r: Option<usize>)
    ensures
        match r {
            Some(i) => find_block(v@, p@) == Some(i as int),
            None => find_block(v@, p@) is None,
        },
{
    if p.len() == 0 {
        return Some(0);
    }
    if v.len() < p.len() {
        proof {
            lemma_find_block(v@, p@);
        }
        return None;
    }
    let vn: usize = v.len();
    let pn: usize = p.len();
    let mut i: usize = 0;
    while i <= vn - pn
        invariant
            vn == v@.len(),
            pn == p@.len(),
            pn <= vn,
            0 <= i <= vn - pn + 1,
            forall|j: int| 0 <= j < i ==> #[trigger] v@.subrange(j, j + p@.len()) != p@,
        decreases vn - i,
    {
        let mut k: usize = 0;
        let mut hit = true;
        while k < pn
            invariant
                vn == v@.len(),
                pn == p@.len(),
                pn <= vn,
                0 <= i <= vn - pn,
                0 <= k <= pn,
                hit == (forall|m: int| 0 <= m < k ==> v@[i + m] == p@[m]),
            decreases pn - k,
        {
            if v[i + k] != p[k] {
                hit = false;
                k = pn;
            } else {
                k = k + 1;
            }
        }
        if hit {
            proof {
                assert(v@.subrange(i as int, i + p@.len()) =~= p@);
                lemma_find_block(v@, p@);
            }
            return Some(i);
        }
        proof {
            assert(v@.subrange(i as int, i + p@.len()) != p@);
        }
        i = i + 1;
    }
    proof {
        lemma_find_block(v@, p@);
    }
    None
}

/// Copy of `v[from..to]`.
pub fn sub_vec(v: &Vec<u8>, from: usize, to: usize) -> (r: Vec<u8>)
    requires
        from <= to <= v@.len(),
    ensures
        r@ == v@.subrange(from as int, to as int),
{
    let mut r: Vec<u8> = Vec::new();
    let mut i: usize = from;
    while i < to
        invariant
            from <= i <= to <= v@.len(),
            r@ == v@.subrange(from as int, i as int),
        decreases to - i,
    {
        r.push(v[i]);
        proof {
            assert(r@ =~= v@.subrange(from as int, i + 1));
        }
        i = i + 1;
    }
    r
}

/// Byte-for-byte equality of two vectors.
pub fn bytes_eq(a: &Vec<u8>, b: &Vec<u8>) -> (r: bool)
    ensures
        r == (a@ == b@),
{
    if a.len() != b.len() {
        return false;
    }
    let mut i: usize = 0;
    while i < a.len()
        invariant
            a@.len() == b@.len(),
            0 <= i <= a@.len(),
            forall|j: int| 0 <= j < i ==> a@[j] == b@[j],
        decreases a@.len() - i,
    {
        if a[i] != b[i] {
            return false;
        }
        i = i + 1;
    }
    proof {
        assert(a@ =~= b@);
    }
    true
}

} // verus!
