//! Small verified string utilities shared across the crate.

use vstd::prelude::*;

verus! {

/// Whether two string slices hold the same characters.
pub fn str_eq(a: &str, b: &str) -> (r: bool)
    ensures
        r == (a@ == b@),
{
    let sa: String = a.to_owned();
    let sb: String = b.to_owned();
    sa == sb
}

/// The characters of `s`, as a vector.
pub fn chars_of(s: &str) -> (r: Vec<char>)
    ensures
        r@ == s@,
{
    let len = s.unicode_len();
    let mut r: Vec<char> = Vec::new();
    let mut i: usize = 0;
    while i < len
        invariant
            len == s@.len(),
            i <= len,
            r@ == s@.take(i as int),
        decreases len - i,
    {
        r.push(s.get_char(i));
        proof {
            assert(s@.take(i + 1) == s@.take(i as int).push(s@[i as int]));
        }
        i = i + 1;
    }
    proof {
        assert(s@.take(len as int) == s@);
    }
    r
}

/// Whether `c` occurs in `s`.
pub open spec fn spec_contains_char(s: Seq<char>, c: char) -> bool {
    exists|i: int| 0 <= i < s.len() && s[i] == c
}

/// Whether `c` occurs among the characters of `v`.
pub fn contains_char(v: &Vec<char>, c: char) -> (r: bool)
    ensures
        r == spec_contains_char(v@, c),
{
    let mut i: usize = 0;
    while i < v.len()
        invariant
            i <= v@.len(),
            forall|j: int| 0 <= j < i ==> v@[j] != c,
        decreases v@.len() - i,
    {
        if v[i] == c {
            return true;
        }
        i = i + 1;
    }
    false
}

/// Whether the characters of `v` spell exactly `s`.
pub fn chars_eq_str(v: &Vec<char>, s: &str) -> (r: bool)
    ensures
        r == (v@ == s@),
{
    let cs = chars_of(s);
    if v.len() != cs.len() {
        return false;
    }
    let mut i: usize = 0;
    while i < v.len()
        invariant
            v@.len() == cs@.len(),
            cs@ == s@,
            i <= v@.len(),
            forall|j: int| 0 <= j < i ==> v@[j] == cs@[j],
        decreases v@.len() - i,
    {
        if v[i] != cs[i] {
            return false;
        }
        i = i + 1;
    }
    proof {
        assert(v@ =~= cs@);
    }
    true
}

/// Splitting `s` on `c`, carrying the segment under construction and the
/// segments already cut.
pub open spec fn spec_split_acc(
    s: Seq<char>,
    c: char,
    cur: Seq<char>,
    acc: Seq<Seq<char>>,
) -> Seq<Seq<char>>
    decreases s.len(),
{
    if s.len() == 0 {
        acc.push(cur)
    } else if s[0] == c {
        spec_split_acc(s.skip(1), c, Seq::empty(), acc.push(cur))
    } else {
        spec_split_acc(s.skip(1), c, cur.push(s[0]), acc)
    }
}

/// The segments of `s` between occurrences of `c`. Splitting never yields an
/// empty list: a string without `c` is one segment, possibly empty.
pub open spec fn spec_split_on(s: Seq<char>, c: char) -> Seq<Seq<char>> {
    spec_split_acc(s, c, Seq::empty(), Seq::empty())
}

/// Splitting extends the accumulator: at least one segment always comes out.
pub proof fn lemma_split_acc_len(s: Seq<char>, c: char, cur: Seq<char>, acc: Seq<Seq<char>>)
    ensures
        spec_split_acc(s, c, cur, acc).len() > acc.len(),
    decreases s.len(),
{
    if s.len() == 0 {
    } else if s[0] == c {
        lemma_split_acc_len(s.skip(1), c, Seq::empty(), acc.push(cur));
    } else {
        lemma_split_acc_len(s.skip(1), c, cur.push(s[0]), acc);
    }
}

/// The segments of `v` between occurrences of `c`.
pub fn split_on(v: &Vec<char>, c: char) -> (r: Vec<Vec<char>>)
    ensures
        r@.map_values(|p: Vec<char>| p@) == spec_split_on(v@, c),
        r@.len() >= 1,
{
    let mut cur: Vec<char> = Vec::new();
    let mut acc: Vec<Vec<char>> = Vec::new();
    let mut i: usize = 0;
    proof {
        assert(v@.skip(0) == v@);
        assert(acc@.map_values(|p: Vec<char>| p@) =~= Seq::<Seq<char>>::empty());
    }
    while i < v.len()
        invariant
            i <= v@.len(),
            spec_split_acc(v@.skip(i as int), c, cur@, acc@.map_values(|p: Vec<char>| p@))
                == spec_split_on(v@, c),
        decreases v@.len() - i,
    {
        proof {
            assert(v@.skip(i as int)[0] == v@[i as int]);
            assert(v@.skip(i as int).skip(1) == v@.skip(i + 1));
        }
        let ghost a0 = acc@.map_values(|p: Vec<char>| p@);
        let ghost c0 = cur@;
        if v[i] == c {
            acc.push(cur);
            cur = Vec::new();
            proof {
                assert(acc@.map_values(|p: Vec<char>| p@) =~= a0.push(c0));
            }
        } else {
            let ch = v[i];
            cur.push(ch);
        }
        i = i + 1;
    }
    proof {
        assert(v@.skip(v@.len() as int) =~= Seq::<char>::empty());
        lemma_split_acc_len(v@, c, Seq::empty(), Seq::empty());
    }
    let ghost a0 = acc@.map_values(|p: Vec<char>| p@);
    let ghost c0 = cur@;
    acc.push(cur);
    proof {
        assert(acc@.map_values(|p: Vec<char>| p@) =~= a0.push(c0));
    }
    acc
}

/// All characters of `v` but the first.
pub fn drop_first(v: &Vec<char>) -> (r: Vec<char>)
    requires
        v@.len() >= 1,
    ensures
        r@ == v@.skip(1),
{
    let mut r: Vec<char> = Vec::new();
    let mut i: usize = 1;
    while i < v.len()
        invariant
            1 <= i <= v@.len(),
            r@ == v@.subrange(1, i as int),
        decreases v@.len() - i,
    {
        r.push(v[i]);
        proof {
            assert(v@.subrange(1, i + 1) == v@.subrange(1, i as int).push(v@[i as int]));
        }
        i = i + 1;
    }
    proof {
        assert(v@.subrange(1, v@.len() as int) == v@.skip(1));
    }
    r
}

/// Whether `needle` occurs in `hay` as a contiguous run.
pub open spec fn spec_contains_sub(hay: Seq<char>, needle: Seq<char>) -> bool {
    exists|i: int|
        0 <= i && i + needle.len() <= hay.len() && #[trigger] hay.subrange(i, i + needle.len())
            == needle
}

/// Whether the characters of `needle` occur contiguously in `hay`.
pub fn contains_sub(hay: &Vec<char>, needle: &Vec<char>) -> (r: bool)
    ensures
        r == spec_contains_sub(hay@, needle@),
{
    if needle.len() > hay.len() {
        proof {
            assert(!spec_contains_sub(hay@, needle@));
        }
        return false;
    }
    let mut i: usize = 0;
    while i <= hay.len() - needle.len()
        invariant
            needle@.len() <= hay@.len(),
            i <= hay@.len() - needle@.len() + 1,
            forall|k: int|
                0 <= k < i ==> #[trigger] hay@.subrange(k, k + needle@.len()) != needle@,
        decreases hay@.len() - needle@.len() + 1 - i,
    {
        let mut j: usize = 0;
        let mut mismatch = false;
        let hlen = hay.len();
        proof {
            assert(hay@.len() == hlen as int);
            assert(hay@.subrange(i as int, i as int) =~= needle@.subrange(0, 0));
        }
        while j < needle.len() && !mismatch
            invariant
                needle@.len() <= hay@.len(),
                hay@.len() <= usize::MAX,
                i <= hay@.len() - needle@.len(),
                j <= needle@.len(),
                !mismatch ==> hay@.subrange(i as int, i + j) == needle@.subrange(0, j as int),
                mismatch ==> j < needle@.len() && hay@[i + j] != needle@[j as int],
            decreases needle@.len() - j, (if mismatch { 0int } else { 1int }),
        {
            if hay[i + j] == needle[j] {
                proof {
                    assert(hay@.subrange(i as int, i + j + 1) == hay@.subrange(
                        i as int,
                        i + j,
                    ).push(hay@[i + j]));
                    assert(needle@.subrange(0, j + 1) == needle@.subrange(0, j as int).push(
                        needle@[j as int],
                    ));
                }
                j = j + 1;
            } else {
                mismatch = true;
            }
        }
        if !mismatch {
            proof {
                assert(needle@.subrange(0, needle@.len() as int) == needle@);
            }
            return true;
        }
        proof {
            if hay@.subrange(i as int, i + needle@.len()) == needle@ {
                assert(hay@.subrange(i as int, i + needle@.len())[j as int] == hay@[i + j]);
                assert(false);
            }
        }
        i = i + 1;
    }
    proof {
        assert(!spec_contains_sub(hay@, needle@));
    }
    false
}

/// The ASCII-lowercase form of one character: letters `A` to `Z` map to
/// their lowercase forms, everything else is unchanged.
pub open spec fn spec_lower_char(c: char) -> char {
    if 'A' <= c && c <= 'Z' {
        (((c as u8) + 32) as char)
    } else {
        c
    }
}

/// The ASCII-lowercase form of a string.
pub open spec fn spec_to_lower(s: Seq<char>) -> Seq<char> {
    s.map_values(|c: char| spec_lower_char(c))
}

/// Lowercases the ASCII letters of `v`, leaving other characters unchanged.
pub fn to_ascii_lower(v: &Vec<char>) -> (r: Vec<char>)
    ensures
        r@ == spec_to_lower(v@),
{
    let mut r: Vec<char> = Vec::new();
    let mut i: usize = 0;
    while i < v.len()
        invariant
            i <= v@.len(),
            r@ == spec_to_lower(v@.take(i as int)),
        decreases v@.len() - i,
    {
        let c = v[i];
        if 'A' <= c && c <= 'Z' {
            r.push(((c as u8) + 32) as char);
        } else {
            r.push(c);
        }
        proof {
            assert(spec_to_lower(v@.take(i + 1)) == spec_to_lower(v@.take(i as int)).push(
                spec_lower_char(v@[i as int]),
            ));
        }
        i = i + 1;
    }
    proof {
        assert(v@.take(v@.len() as int) == v@);
    }
    r
}

/// The first `k` of the `parts`, joined with `sep` between neighbours.
pub open spec fn spec_join_upto(parts: Seq<Seq<char>>, sep: Seq<char>, k: int) -> Seq<char>
    decreases k,
{
    if k <= 0 {
        Seq::empty()
    } else if k == 1 {
        parts[0]
    } else {
        spec_join_upto(parts, sep, k - 1) + sep + parts[k - 1]
    }
}

/// All the `parts`, joined with `sep` between neighbours.
pub open spec fn spec_join(parts: Seq<Seq<char>>, sep: Seq<char>) -> Seq<char> {
    spec_join_upto(parts, sep, parts.len() as int)
}

/// Joins the parts with the separator between neighbours.
pub fn join(parts: &Vec<String>, sep: &str) -> (r: String)
    ensures
        r@ == spec_join(parts@.map_values(|p: String| p@), sep@),
{
    let ghost model = parts@.map_values(|p: String| p@);
    let mut r = String::new();
    let mut i: usize = 0;
    while i < parts.len()
        invariant
            i <= parts.len(),
            model == parts@.map_values(|p: String| p@),
            r@ == spec_join_upto(model, sep@, i as int),
        decreases parts.len() - i,
    {
        if i > 0 {
            r.append(sep);
        }
        r.append(parts[i].as_str());
        proof {
            assert(model[i as int] == parts@[i as int]@);
        }
        i = i + 1;
    }
    r
}

} // verus!
