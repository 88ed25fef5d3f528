//! Verified utilities over strings: splitting on a separator character,
//! suffix and substring tests, and last-path-component extraction.

use vstd::prelude::*;

verus! {

/// The views of a vector of strings, as a sequence of character sequences.
pub open spec fn views_of(v: Seq<String>) -> Seq<Seq<char>> {
    v.map_values(|s: String| s@)
}

/// Splitting a character sequence on a separator, front first. The result
/// always has one part more than the number of separators, and empty parts
/// are kept, as the standard splitter behaves for a one-character pattern.
pub open spec fn split_on(s: Seq<char>, sep: char) -> Seq<Seq<char>>
    decreases s.len(),
{
    if s.len() == 0 {
        seq![Seq::<char>::empty()]
    } else if s[0] == sep {
        seq![Seq::<char>::empty()] + split_on(s.skip(1), sep)
    } else {
        let rest = split_on(s.skip(1), sep);
        seq![seq![s[0]] + rest[0]] + rest.skip(1)
    }
}

/// A split has at least one part.
pub proof fn lemma_split_on_len(s: Seq<char>, sep: char)
    ensures
        split_on(s, sep).len() >= 1,
    decreases s.len(),
{
    if s.len() == 0 {
    } else {
        lemma_split_on_len(s.skip(1), sep);
    }
}

/// A sequence without the separator splits into itself alone.
pub proof fn lemma_split_on_no_sep(s: Seq<char>, sep: char)
    requires
        forall|j: int| 0 <= j < s.len() ==> s[j] != sep,
    ensures
        split_on(s, sep) == seq![s],
    decreases s.len(),
{
    if s.len() == 0 {
        assert(s =~= Seq::<char>::empty());
    } else {
        assert forall|j: int| 0 <= j < s.skip(1).len() implies s.skip(1)[j] != sep by {
            assert(s.skip(1)[j] == s[j + 1]);
        }
        lemma_split_on_no_sep(s.skip(1), sep);
        assert(seq![s[0]] + s.skip(1) =~= s);
        assert(split_on(s, sep) =~~= seq![s]);
    }
}

/// Splitting at the first occurrence of the separator: everything before it
/// is the first part, and the rest splits on its own.
pub proof fn lemma_split_on_first_sep(s: Seq<char>, sep: char, k: int)
    requires
        0 <= k < s.len(),
        s[k] == sep,
        forall|j: int| 0 <= j < k ==> s[j] != sep,
    ensures
        split_on(s, sep) == seq![s.subrange(0, k)] + split_on(s.skip(k + 1), sep),
    decreases k,
{
    if k == 0 {
        assert(s.subrange(0, 0) =~= Seq::<char>::empty());
        assert(split_on(s, sep) =~~= seq![s.subrange(0, 0)] + split_on(s.skip(1), sep));
    } else {
        assert forall|j: int| 0 <= j < k - 1 implies s.skip(1)[j] != sep by {
            assert(s.skip(1)[j] == s[j + 1]);
        }
        assert(s.skip(1)[k - 1] == s[k]);
        lemma_split_on_first_sep(s.skip(1), sep, k - 1);
        let rest = split_on(s.skip(1), sep);
        assert(s.skip(1).skip(k) =~= s.skip(k + 1));
        assert(rest[0] == s.skip(1).subrange(0, k - 1));
        assert(seq![s[0]] + s.skip(1).subrange(0, k - 1) =~= s.subrange(0, k));
        assert(rest.skip(1) == split_on(s.skip(k + 1), sep)) by {
            assert((seq![s.skip(1).subrange(0, k - 1)] + split_on(s.skip(1).skip(k), sep)).skip(1)
                =~~= split_on(s.skip(1).skip(k), sep));
        }
        assert(split_on(s, sep) =~~= seq![s.subrange(0, k)] + split_on(s.skip(k + 1), sep));
    }
}

/// Splits a string on a separator character, keeping empty parts.
pub fn split_str(s: &str, sep: char) -> (r: Vec<String>)
    ensures
        views_of(r@) == split_on(s@, sep),
{
    let n = s.unicode_len();
    let mut parts: Vec<String> = Vec::new();
    let mut start: usize = 0;
    let mut i: usize = 0;
    proof {
        assert(s@.skip(0) =~= s@);
        assert(views_of(parts@) + split_on(s@, sep) =~~= split_on(s@, sep));
    }
    while i < n
        invariant
            start <= i <= n,
            n == s@.len(),
            split_on(s@, sep) == views_of(parts@) + split_on(s@.skip(start as int), sep),
            forall|j: int| start <= j < i ==> s@[j] != sep,
        decreases n - i,
    {
        let c = s.get_char(i);
        if c == sep {
            let piece = s.substring_char(start, i).to_owned();
            proof {
                let tail = s@.skip(start as int);
                assert forall|j: int| 0 <= j < i - start implies tail[j] != sep by {
                    assert(tail[j] == s@[start + j]);
                }
                assert(tail[i - start] == s@[i as int]);
                lemma_split_on_first_sep(tail, sep, i - start);
                assert(tail.subrange(0, i - start) =~= s@.subrange(start as int, i as int));
                assert(tail.skip(i - start + 1) =~= s@.skip(i as int + 1));
                assert(views_of(parts@.push(piece)) =~= views_of(parts@).push(piece@));
                assert(views_of(parts@).push(piece@) + split_on(s@.skip(i as int + 1), sep)
                    =~~= views_of(parts@) + (seq![piece@] + split_on(s@.skip(i as int + 1), sep)));
            }
            parts.push(piece);
            start = i + 1;
        }
        i += 1;
    }
    let piece = s.substring_char(start, n).to_owned();
    proof {
        let tail = s@.skip(start as int);
        assert forall|j: int| 0 <= j < tail.len() implies tail[j] != sep by {
            assert(tail[j] == s@[start + j]);
        }
        lemma_split_on_no_sep(tail, sep);
        assert(tail =~= s@.subrange(start as int, n as int));
        assert(views_of(parts@.push(piece)) =~= views_of(parts@).push(piece@));
        assert(views_of(parts@) + seq![piece@] =~~= views_of(parts@).push(piece@));
    }
    parts.push(piece);
    parts
}

/// Character-for-character equality of two string slices.
pub fn str_eq(a: &str, b: &str) -> (r: bool)
    ensures
        r == (a@ == b@),
{
    let sa: String = a.to_owned();
    let sb: String = b.to_owned();
    sa == sb
}

/// True when `s` ends with `suffix`.
pub open spec fn spec_ends_with(s: Seq<char>, suffix: Seq<char>) -> bool {
    s.len() >= suffix.len() && s.subrange(s.len() - suffix.len(), s.len() as int) == suffix
}

/// Suffix test over characters.
pub fn ends_with_str(s: &str, suffix: &str) -> (r: bool)
    ensures
        r == spec_ends_with(s@, suffix@),
{
    let n = s.unicode_len();
    let m = suffix.unicode_len();
    if m > n {
        return false;
    }
    let tail = s.substring_char(n - m, n);
    str_eq(tail, suffix)
}

/// True when `needle` occurs somewhere inside `hay`.
pub open spec fn spec_contains_sub(hay: Seq<char>, needle: Seq<char>) -> bool {
    exists|k: int|
        0 <= k && k + needle.len() <= hay.len() && #[trigger] hay.subrange(k, k + needle.len())
            == needle
}

/// Substring search over characters.
pub fn contains_sub(hay: &str, needle: &str) -> (r: bool)
    ensures
        r == spec_contains_sub(hay@, needle@),
{
    let n = hay.unicode_len();
    let m = needle.unicode_len();
    if m > n {
        return false;
    }
    let mut k: usize = 0;
    while k <= n - m
        invariant
            m <= n,
            n == hay@.len(),
            m == needle@.len(),
            k <= n - m + 1,
            forall|q: int| 0 <= q < k ==> #[trigger] hay@.subrange(q, q + m as int) != needle@,
        decreases n - m + 1 - k,
    {
        let mut ok = true;
        let mut j: usize = 0;
        while j < m
            invariant
                j <= m,
                k + m <= n,
                n == hay@.len(),
                m == needle@.len(),
                ok <==> (forall|t: int| 0 <= t < j ==> hay@[k + t] == needle@[t]),
            decreases m - j,
        {
            if hay.get_char(k + j) != needle.get_char(j) {
                ok = false;
            }
            j += 1;
        }
        if ok {
            proof {
                assert(hay@.subrange(k as int, k + m as int) =~= needle@);
            }
            return true;
        }
        proof {
            let t = choose|t: int| 0 <= t < m && hay@[k + t] != needle@[t];
            assert(hay@.subrange(k as int, k + m as int)[t] == hay@[k + t]);
        }
        k += 1;
    }
    proof {
        assert forall|q: int| !(0 <= q && q + needle@.len() <= hay@.len()
            && #[trigger] hay@.subrange(q, q + needle@.len()) == needle@) by {
            if 0 <= q && q + m <= n {
                assert(hay@.subrange(q, q + m as int) != needle@);
            }
        }
    }
    false
}

/// The last path component: everything after the final separator.
pub open spec fn spec_file_name(path: Seq<char>) -> Seq<char> {
    split_on(path, '/').last()
}

/// Returns the last component of a `/`-separated path.
pub fn file_name_of(path: &str) -> (r: String)
    ensures
        r@ == spec_file_name(path@),
{
    let parts = split_str(path, '/');
    proof {
        lemma_split_on_len(path@, '/');
        assert(views_of(parts@).len() == parts@.len());
    }
    let idx = parts.len() - 1;
    let r = parts[idx].clone();
    proof {
        assert(views_of(parts@)[idx as int] == parts@[idx as int]@);
    }
    r
}

} // verus!
