//! The process-wide native-library search path, modelled as a list of
//! directories joined by a single separator character.
//!
//! The bootstrap must splice one new directory into that variable: read it,
//! split it on the platform separator, push the new directory, and rejoin.
//! These functions do exactly that on plain strings; the unverified shell
//! only reads and writes the environment variable itself.

use vstd::prelude::*;

verus! {

use vstd::string::StrSliceExecFns;
use vstd::string::StringExecFns;

/// Index of the first occurrence of `sep` in `s`, or a negative value if
/// `sep` does not occur.
pub open spec fn first_sep(s: Seq<char>, sep: char) -> int
    decreases s.len(),
{
    if s.len() == 0 {
        -1
    } else if s[0] == sep {
        0
    } else {
        let r = first_sep(s.drop_first(), sep);
        if r < 0 {
            -1
        } else {
            r + 1
        }
    }
}

/// `first_sep` returns either the least index holding `sep`, or a negative
/// value when no index holds it.
pub proof fn lemma_first_sep(s: Seq<char>, sep: char)
    ensures
        first_sep(s, sep) >= 0 ==> first_sep(s, sep) < s.len() && s[first_sep(s, sep)] == sep,
        first_sep(s, sep) >= 0 ==> forall|j: int| 0 <= j < first_sep(s, sep) ==> s[j] != sep,
        first_sep(s, sep) < 0 ==> forall|j: int| 0 <= j < s.len() ==> s[j] != sep,
    decreases s.len(),
{
    if s.len() != 0 && s[0] != sep {
        lemma_first_sep(s.drop_first(), sep);
        let f = first_sep(s, sep);
        if f >= 0 {
            assert forall|j: int| 0 <= j < f implies s[j] != sep by {
                if j > 0 {
                    assert(s.drop_first()[j - 1] == s[j]);
                    assert(s.drop_first()[j - 1] != sep);
                }
            }
        } else {
            assert forall|j: int| 0 <= j < s.len() implies s[j] != sep by {
                if j > 0 {
                    assert(s.drop_first()[j - 1] == s[j]);
                    assert(s.drop_first()[j - 1] != sep);
                }
            }
        }
    }
}

/// The pieces of `s` between occurrences of `sep`.
///
/// The empty string has no pieces, and a trailing separator does not open
/// an empty final piece; every other separator bounds a piece on each side.
pub open spec fn split_spec(s: Seq<char>, sep: char) -> Seq<Seq<char>>
    decreases s.len(),
    via split_spec_decreases
{
    if s.len() == 0 {
        Seq::empty()
    } else {
        let i = first_sep(s, sep);
        if i < 0 {
            seq![s]
        } else {
            seq![s.take(i)] + split_spec(s.skip(i + 1), sep)
        }
    }
}

#[via_fn]
proof fn split_spec_decreases(s: Seq<char>, sep: char) {
    lemma_first_sep(s, sep);
}

/// The pieces joined back together with `sep` between each pair.
pub open spec fn join_spec(v: Seq<Seq<char>>, sep: char) -> Seq<char>
    decreases v.len(),
{
    if v.len() == 0 {
        Seq::empty()
    } else if v.len() == 1 {
        v[0]
    } else {
        v[0] + seq![sep] + join_spec(v.drop_first(), sep)
    }
}

/// `sep` does not occur in `p`.
pub open spec fn sep_free(p: Seq<char>, sep: char) -> bool {
    forall|j: int| 0 <= j < p.len() ==> p[j] != sep
}

/// `sep` occurs in no piece of `v`.
pub open spec fn all_sep_free(v: Seq<Seq<char>>, sep: char) -> bool {
    forall|i: int| 0 <= i < v.len() ==> sep_free(#[trigger] v[i], sep)
}

/// The views of a list of strings.
pub open spec fn views_of(v: Seq<String>) -> Seq<Seq<char>> {
    v.map_values(|p: String| p@)
}

/// Every piece that `split_spec` yields is free of the separator.
pub proof fn lemma_split_sep_free(s: Seq<char>, sep: char)
    ensures
        all_sep_free(split_spec(s, sep), sep),
    decreases s.len(),
{
    lemma_first_sep(s, sep);
    if s.len() != 0 {
        let i = first_sep(s, sep);
        if i >= 0 {
            lemma_split_sep_free(s.skip(i + 1), sep);
            let v = split_spec(s, sep);
            assert forall|k: int| 0 <= k < v.len() implies sep_free(#[trigger] v[k], sep) by {
                if k == 0 {
                    assert(forall|j: int| 0 <= j < i ==> s.take(i)[j] == s[j]);
                } else {
                    assert(v[k] == split_spec(s.skip(i + 1), sep)[k - 1]);
                }
            }
        }
    }
}

/// The first separator of `a + [sep] + b` stands right after `a` when `a`
/// itself is free of the separator.
pub proof fn lemma_first_sep_concat(a: Seq<char>, sep: char, b: Seq<char>)
    requires
        sep_free(a, sep),
    ensures
        first_sep(a + seq![sep] + b, sep) == a.len(),
    decreases a.len(),
{
    let s = a + seq![sep] + b;
    if a.len() == 0 {
        assert(s[0] == sep);
    } else {
        assert(s[0] == a[0]);
        lemma_first_sep_concat(a.drop_first(), sep, b);
        assert(s.drop_first() =~= a.drop_first() + seq![sep] + b);
    }
}

/// Splitting undoes joining, as long as no piece holds the separator and
/// the final piece is nonempty.
pub proof fn lemma_split_join(v: Seq<Seq<char>>, sep: char)
    requires
        v.len() > 0,
        all_sep_free(v, sep),
        v.last().len() > 0,
    ensures
        split_spec(join_spec(v, sep), sep) == v,
    decreases v.len(),
{
    let s = join_spec(v, sep);
    if v.len() == 1 {
        lemma_first_sep(s, sep);
        if first_sep(s, sep) >= 0 {
            assert(s[first_sep(s, sep)] == sep);
            assert(false);
        }
        assert(split_spec(s, sep) =~= v);
    } else {
        let rest = v.drop_first();
        lemma_first_sep_concat(v[0], sep, join_spec(rest, sep));
        let i = v[0].len() as int;
        assert(first_sep(s, sep) == i);
        assert(s.take(i) =~= v[0]);
        assert(s.skip(i + 1) =~= join_spec(rest, sep));
        assert(forall|k: int| 0 <= k < rest.len() ==> rest[k] == v[k + 1]);
        assert(rest.last() == v.last());
        lemma_split_join(rest, sep);
        assert(split_spec(s, sep) =~= v);
    }
}

/// How many pieces of `v` equal `x`.
pub open spec fn count_of(v: Seq<Seq<char>>, x: Seq<char>) -> nat
    decreases v.len(),
{
    if v.len() == 0 {
        0
    } else {
        (if v[0] == x {
            1nat
        } else {
            0nat
        }) + count_of(v.drop_first(), x)
    }
}

/// Pushing one piece raises its count by one and no other count.
pub proof fn lemma_count_push(v: Seq<Seq<char>>, y: Seq<char>, x: Seq<char>)
    ensures
        count_of(v.push(y), x) == count_of(v, x) + (if y == x {
            1nat
        } else {
            0nat
        }),
    decreases v.len(),
{
    if v.len() == 0 {
        assert(v.push(y)[0] == y);
        assert(v.push(y).drop_first() =~= v);
    } else {
        assert(v.push(y)[0] == v[0]);
        assert(v.push(y).drop_first() =~= v.drop_first().push(y));
        lemma_count_push(v.drop_first(), y, x);
    }
}

/// Finds the first occurrence of `sep` in `s`.
fn find_sep(s: &str, sep: char) -> (r: Option<usize>)
    ensures
        match r {
            Some(i) => first_sep(s@, sep) == i as int,
            None => first_sep(s@, sep) < 0,
        },
{
    let n = s.unicode_len();
    let mut k: usize = 0;
    while k < n
        invariant
            0 <= k <= n,
            n == s@.len(),
            forall|j: int| 0 <= j < k ==> s@[j] != sep,
        decreases n - k,
    {
        if s.get_char(k) == sep {
            proof {
                lemma_first_sep(s@, sep);
                let f = first_sep(s@, sep);
                if f < 0 {
                    assert(s@[k as int] != sep);
                    assert(false);
                }
                if f < k {
                    assert(s@[f] != sep);
                    assert(false);
                }
                if f > k {
                    assert(s@[k as int] != sep);
                    assert(false);
                }
            }
            return Some(k);
        }
        k += 1;
    }
    proof {
        lemma_first_sep(s@, sep);
        let f = first_sep(s@, sep);
        if f >= 0 {
            assert(s@[f] != sep);
            assert(false);
        }
    }
    None
}

/// Splits `s` into its pieces between occurrences of `sep`.
pub fn split_paths(s: &str, sep: char) -> (r: Vec<String>)
    ensures
        views_of(r@) == split_spec(s@, sep),
    decreases s@.len(),
{
    let n = s.unicode_len();
    if n == 0 {
        let r: Vec<String> = Vec::new();
        assert(views_of(r@) =~= split_spec(s@, sep));
        r
    } else {
        match find_sep(s, sep) {
            None => {
                let mut r: Vec<String> = Vec::new();
                r.push(s.to_owned());
                assert(views_of(r@) =~= split_spec(s@, sep));
                r
            },
            Some(i) => {
                proof {
                    lemma_first_sep(s@, sep);
                }
                let first = s.substring_char(0, i);
                let rest = s.substring_char(i + 1, n);
                let mut r: Vec<String> = Vec::new();
                r.push(first.to_owned());
                let mut tail = split_paths(rest, sep);
                r.append(&mut tail);
                proof {
                    assert(s@.take(i as int) =~= s@.subrange(0, i as int));
                    assert(s@.skip(i + 1) =~= s@.subrange(i + 1, n as int));
                    assert(views_of(r@) =~= seq![s@.take(i as int)] + split_spec(
                        s@.skip(i + 1),
                        sep,
                    ));
                }
                r
            },
        }
    }
}

/// Joins the pieces with the one-character separator `sep_str` between
/// each pair.
pub fn join_paths(v: &Vec<String>, sep_str: &str) -> (r: String)
    requires
        sep_str@.len() == 1,
    ensures
        r@ == join_spec(views_of(v@), sep_str@[0]),
{
    let ghost sep = sep_str@[0];
    let mut r = String::new();
    let mut k: usize = 0;
    while k < v.len()
        invariant
            0 <= k <= v.len(),
            sep_str@.len() == 1,
            sep == sep_str@[0],
            r@ == join_spec(views_of(v@).take(k as int), sep),
        decreases v.len() - k,
    {
        if k > 0 {
            r.append(sep_str);
        }
        r.append(v[k].as_str());
        proof {
            lemma_join_push(views_of(v@).take(k as int), views_of(v@)[k as int], sep);
            assert(views_of(v@).take(k + 1) =~= views_of(v@).take(k as int).push(
                views_of(v@)[k as int],
            ));
            assert(seq![sep] =~= sep_str@);
        }
        k += 1;
    }
    proof {
        assert(views_of(v@).take(v@.len() as int) =~= views_of(v@));
    }
    r
}

/// Joining one more piece appends a separator and the piece.
pub proof fn lemma_join_push(v: Seq<Seq<char>>, x: Seq<char>, sep: char)
    ensures
        v.len() == 0 ==> join_spec(v.push(x), sep) == x,
        v.len() > 0 ==> join_spec(v.push(x), sep) == join_spec(v, sep) + seq![sep] + x,
    decreases v.len(),
{
    let w = v.push(x);
    if v.len() == 0 {
        assert(w[0] == x);
    } else if v.len() == 1 {
        assert(w[0] == v[0]);
        assert(w.drop_first() =~= seq![x]);
        assert(join_spec(w.drop_first(), sep) == x);
    } else {
        assert(w[0] == v[0]);
        assert(w.drop_first() =~= v.drop_first().push(x));
        lemma_join_push(v.drop_first(), x, sep);
        assert(v[0] + seq![sep] + (join_spec(v.drop_first(), sep) + seq![sep] + x) =~= (v[0]
            + seq![sep] + join_spec(v.drop_first(), sep)) + seq![sep] + x);
    }
}

/// Splices `dir` onto the end of the search-path variable `path`: the
/// pieces of the result are exactly the old pieces followed by `dir`.
pub fn append_search_path(path: &str, dir: &str, sep_str: &str) -> (r: String)
    requires
        sep_str@.len() == 1,
        dir@.len() > 0,
        sep_free(dir@, sep_str@[0]),
    ensures
        split_spec(r@, sep_str@[0]) == split_spec(path@, sep_str@[0]).push(dir@),
{
    let ghost sep = sep_str@[0];
    let sep_char = sep_str.get_char(0);
    let mut v = split_paths(path, sep_char);
    v.push(dir.to_owned());
    let r = join_paths(&v, sep_str);
    proof {
        lemma_split_sep_free(path@, sep);
        assert(views_of(v@) =~= split_spec(path@, sep).push(dir@));
        assert(views_of(v@).last() == dir@);
        lemma_split_join(views_of(v@), sep);
    }
    r
}

/// Law: splicing a directory into the search path adds exactly one
/// occurrence of that directory to the list of pieces, and leaves every
/// other directory's count unchanged.
pub proof fn lemma_splice_counts(pieces: Seq<Seq<char>>, dir: Seq<char>, other: Seq<char>)
    ensures
        count_of(pieces.push(dir), dir) == count_of(pieces, dir) + 1,
        other != dir ==> count_of(pieces.push(dir), other) == count_of(pieces, other),
{
    lemma_count_push(pieces, dir, dir);
    lemma_count_push(pieces, dir, other);
}

} // verus!
