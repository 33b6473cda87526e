//! Character-level vocabulary shared by the contracts of this crate.

use vstd::prelude::*;
use vstd::string::StrSliceExecFns;
use vstd::string::StringExecFns;

verus! {

/// A lowercase hexadecimal digit, the alphabet of every generated identifier.
pub open spec fn is_lower_hex_digit(c: char) -> bool {
    ('0' <= c && c <= '9') || ('a' <= c && c <= 'f')
}

/// A 24-character lowercase hexadecimal string: the shape of every
/// primary key this crate hands to the target store.
pub open spec fn is_record_id(s: Seq<char>) -> bool {
    s.len() == 24 && forall|i: int| 0 <= i < s.len() ==> is_lower_hex_digit(#[trigger] s[i])
}

/// A 36-character hyphenated rendering of a 128-bit value: hyphens at
/// the four fixed positions, lowercase hexadecimal everywhere else.
pub open spec fn is_hyphenated_uuid(s: Seq<char>) -> bool {
    &&& s.len() == 36
    &&& s[8] == '-'
    &&& s[13] == '-'
    &&& s[18] == '-'
    &&& s[23] == '-'
    &&& forall|i: int|
        0 <= i < 36 && i != 8 && i != 13 && i != 18 && i != 23 ==> is_lower_hex_digit(
            #[trigger] s[i],
        )
}

/// The comma-joined rendering of a sequence of segments. Splitting on
/// commas is specified as its inverse: the segments of a split carry no
/// comma and join back to the input.
pub open spec fn join_commas(segments: Seq<Seq<char>>) -> Seq<char>
    decreases segments.len(),
{
    if segments.len() == 0 {
        Seq::empty()
    } else if segments.len() == 1 {
        segments[0]
    } else {
        segments[0] + seq![','] + join_commas(segments.drop_first())
    }
}

/// Whether no segment of the sequence contains a comma.
pub open spec fn comma_free(segments: Seq<Seq<char>>) -> bool {
    forall|i: int, j: int|
        0 <= i < segments.len() && 0 <= j < segments[i].len() ==> segments[i][j] != ','
}

/// Joining one more segment appends a comma and that segment.
proof fn lemma_join_commas_push(segments: Seq<Seq<char>>, last: Seq<char>)
    requires
        segments.len() > 0,
    ensures
        join_commas(segments.push(last)) == join_commas(segments) + seq![','] + last,
    decreases segments.len(),
{
    if segments.len() == 1 {
        assert(segments.push(last).drop_first() =~= seq![last]);
        assert(join_commas(seq![last]) == last);
        assert(segments.push(last)[0] == segments[0]);
    } else {
        assert(segments.push(last).drop_first() =~= segments.drop_first().push(last));
        lemma_join_commas_push(segments.drop_first(), last);
        assert(segments.push(last)[0] == segments[0]);
        assert((segments[0] + seq![','] + (join_commas(segments.drop_first()) + seq![',']
            + last)) =~= (segments[0] + seq![','] + join_commas(segments.drop_first()))
            + seq![','] + last);
    }
}

/// Splits a string on `,` into its literal segments: no trimming, and an
/// empty input yields one empty segment. The result is the unique
/// comma-free decomposition whose comma-join is the input.
pub fn split_commas(s: &str) -> (segments: Vec<String>)
    ensures
        segments@.len() >= 1,
        join_commas(segments.deep_view()) == s@,
        comma_free(segments.deep_view()),
{
    let n: usize = s.unicode_len();
    let mut segments: Vec<String> = Vec::new();
    let mut start: usize = 0;
    let mut i: usize = 0;
    while i < n
        invariant
            start <= i <= n,
            n == s@.len(),
            segments@.len() == 0 ==> start == 0,
            segments@.len() > 0 ==> join_commas(segments.deep_view()) + seq![',']
                == s@.subrange(0, start as int),
            comma_free(segments.deep_view()),
            forall|k: int| start <= k < i ==> s@[k] != ',',
        decreases n - i,
    {
        if s.get_char(i) == ',' {
            let segment = String::from_str(s.substring_char(start, i));
            let ghost d = segments.deep_view();
            let ghost sub = s@.subrange(start as int, i as int);
            segments.push(segment);
            proof {
                let dd = segments.deep_view();
                assert(dd =~= d.push(sub));
                assert forall|x: int, j: int|
                    0 <= x < dd.len() && 0 <= j < dd[x].len() implies dd[x][j] != ',' by {
                    if x < d.len() {
                        assert(dd[x] == d[x]);
                    } else {
                        assert(dd[x] == sub);
                        assert(sub[j] == s@[start + j]);
                    }
                }
                if d.len() == 0 {
                    assert(dd =~= seq![sub]);
                    assert(join_commas(dd) == sub);
                    assert(sub + seq![','] =~= s@.subrange(0, (i + 1) as int));
                } else {
                    lemma_join_commas_push(d, sub);
                    assert(join_commas(dd) + seq![','] =~= join_commas(d) + seq![','] + sub
                        + seq![',']);
                    assert(join_commas(d) + seq![','] + sub + seq![',']
                        =~= s@.subrange(0, start as int) + sub + seq![',']);
                    assert(s@.subrange(0, start as int) + sub + seq![',']
                        =~= s@.subrange(0, (i + 1) as int));
                }
            }
            start = i + 1;
        }
        i += 1;
    }
    let segment = String::from_str(s.substring_char(start, n));
    let ghost d = segments.deep_view();
    let ghost sub = s@.subrange(start as int, n as int);
    segments.push(segment);
    proof {
        let dd = segments.deep_view();
        assert(dd =~= d.push(sub));
        assert forall|x: int, j: int|
            0 <= x < dd.len() && 0 <= j < dd[x].len() implies dd[x][j] != ',' by {
            if x < d.len() {
                assert(dd[x] == d[x]);
            } else {
                assert(dd[x] == sub);
                assert(sub[j] == s@[start + j]);
            }
        }
        if d.len() == 0 {
            assert(dd =~= seq![sub]);
            assert(join_commas(dd) == sub);
            assert(sub =~= s@);
        } else {
            lemma_join_commas_push(d, sub);
            assert(join_commas(dd) =~= join_commas(d) + seq![','] + sub);
            assert(join_commas(d) + seq![','] + sub =~= s@.subrange(0, start as int) + sub);
            assert(s@.subrange(0, start as int) + sub =~= s@);
        }
    }
    segments
}

/// `s` with every occurrence of the pattern removed, scanning left to
/// right without overlap, as `str::replace` with an empty replacement
/// does.
pub open spec fn remove_all(s: Seq<char>, pat: Seq<char>) -> Seq<char>
    decreases s.len(),
{
    if pat.len() == 0 || s.len() < pat.len() {
        s
    } else if s.subrange(0, pat.len() as int) == pat {
        remove_all(s.skip(pat.len() as int), pat)
    } else {
        seq![s[0]] + remove_all(s.skip(1), pat)
    }
}

/// One scanning step of [`remove_all`]: a position where the pattern
/// does not start emits its character.
proof fn lemma_remove_all_step(s: Seq<char>, pat: Seq<char>)
    requires
        pat.len() > 0,
        s.len() > 0,
        !(s.len() >= pat.len() && s.subrange(0, pat.len() as int) == pat),
    ensures
        remove_all(s, pat) == seq![s[0]] + remove_all(s.skip(1), pat),
{
    if s.len() < pat.len() {
        assert(s.skip(1).len() < pat.len());
        assert(seq![s[0]] + s.skip(1) =~= s);
    }
}

/// Strips every occurrence of the pattern out of `s`, scanning left to
/// right, as [`remove_all`] states.
pub fn strip_pattern(s: &str, pat: &str) -> (r: String)
    requires
        pat@.len() >= 1,
    ensures
        r@ == remove_all(s@, pat@),
{
    let n: usize = s.unicode_len();
    let m: usize = pat.unicode_len();
    let mut out = String::new();
    let mut start: usize = 0;
    let mut i: usize = 0;
    proof {
        assert(s@.subrange(0, n as int) =~= s@);
        assert(out@ + s@.subrange(0, 0) + remove_all(s@.subrange(0, n as int), pat@)
            =~= remove_all(s@, pat@));
    }
    while i < n
        invariant
            start <= i <= n,
            n == s@.len(),
            m == pat@.len(),
            m >= 1,
            remove_all(s@, pat@) == out@ + s@.subrange(start as int, i as int) + remove_all(
                s@.subrange(i as int, n as int),
                pat@,
            ),
        decreases n - i,
    {
        let hit = if m <= n - i {
            matches_at(s, n, pat, m, i)
        } else {
            false
        };
        if hit {
            let ghost tail = s@.subrange(i as int, n as int);
            proof {
                assert(tail.subrange(0, m as int) =~= s@.subrange(i as int, (i + m) as int));
                assert(tail.skip(m as int) =~= s@.subrange((i + m) as int, n as int));
                assert(remove_all(tail, pat@) == remove_all(
                    s@.subrange((i + m) as int, n as int),
                    pat@,
                ));
            }
            out.append(s.substring_char(start, i));
            proof {
                assert(out@ + s@.subrange((i + m) as int, (i + m) as int) =~= out@);
            }
            i += m;
            start = i;
        } else {
            let ghost tail = s@.subrange(i as int, n as int);
            proof {
                if m <= n - i {
                    assert(tail.subrange(0, m as int) =~= s@.subrange(i as int, (i + m) as int));
                }
                assert(tail.len() > 0);
                lemma_remove_all_step(tail, pat@);
                assert(tail.skip(1) =~= s@.subrange((i + 1) as int, n as int));
                assert(tail[0] == s@[i as int]);
                assert(s@.subrange(start as int, i as int) + seq![s@[i as int]] =~= s@.subrange(
                    start as int,
                    (i + 1) as int,
                ));
                assert(out@ + s@.subrange(start as int, i as int) + (seq![tail[0]] + remove_all(
                    tail.skip(1),
                    pat@,
                )) =~= out@ + s@.subrange(start as int, (i + 1) as int) + remove_all(
                    s@.subrange((i + 1) as int, n as int),
                    pat@,
                ));
            }
            i += 1;
        }
    }
    out.append(s.substring_char(start, n));
    proof {
        assert(s@.subrange(n as int, n as int).len() == 0);
        assert(remove_all(s@.subrange(n as int, n as int), pat@) =~= Seq::<char>::empty());
        assert(out@ =~= out@ + Seq::<char>::empty());
    }
    out
}

/// Whether the pattern occurs in `s` starting at position `i`.
pub open spec fn match_at(s: Seq<char>, pat: Seq<char>, i: int) -> bool {
    0 <= i && i + pat.len() <= s.len() && s.subrange(i, i + pat.len()) == pat
}

/// Whether `i` is the leftmost position where the pattern occurs.
pub open spec fn is_first_match(s: Seq<char>, pat: Seq<char>, i: int) -> bool {
    match_at(s, pat, i) && forall|j: int| 0 <= j < i ==> !match_at(s, pat, j)
}

/// The leftmost occurrence of the pattern in `s`, if any.
pub open spec fn first_match(s: Seq<char>, pat: Seq<char>) -> Option<int> {
    if exists|i: int| is_first_match(s, pat, i) {
        Some(choose|i: int| is_first_match(s, pat, i))
    } else {
        None
    }
}

/// A leftmost occurrence is unique, so witnessing one pins `first_match`.
pub proof fn lemma_first_match_position(s: Seq<char>, pat: Seq<char>, i: int)
    requires
        is_first_match(s, pat, i),
    ensures
        first_match(s, pat) == Some(i),
{
    let k = choose|k: int| is_first_match(s, pat, k);
    if k < i {
        assert(!match_at(s, pat, k));
    } else if i < k {
        assert(!match_at(s, pat, i));
    }
}

/// A present `first_match` carries the leftmost-occurrence facts of its
/// position.
pub proof fn lemma_first_match_props(s: Seq<char>, pat: Seq<char>)
    requires
        first_match(s, pat) is Some,
    ensures
        is_first_match(s, pat, first_match(s, pat)->0),
{
    assert(exists|i: int| is_first_match(s, pat, i));
    assert(is_first_match(s, pat, choose|i: int| is_first_match(s, pat, i)));
}

/// With no occurrence anywhere, `first_match` is empty.
pub proof fn lemma_first_match_absent(s: Seq<char>, pat: Seq<char>)
    requires
        forall|j: int| !match_at(s, pat, j),
    ensures
        first_match(s, pat) is None,
{
    assert(forall|i: int| !is_first_match(s, pat, i));
}

/// Whether the pattern occurs at the given position, checked character
/// by character.
fn matches_at(s: &str, n: usize, pat: &str, m: usize, i: usize) -> (r: bool)
    requires
        n == s@.len(),
        m == pat@.len(),
        i + m <= n,
    ensures
        r == match_at(s@, pat@, i as int),
{
    let mut k: usize = 0;
    while k < m
        invariant
            k <= m,
            n == s@.len(),
            m == pat@.len(),
            i + m <= n,
            forall|x: int| 0 <= x < k ==> s@[i + x] == pat@[x],
        decreases m - k,
    {
        if s.get_char(i + k) != pat.get_char(k) {
            proof {
                assert(s@.subrange(i as int, i + m) != pat@) by {
                    assert(s@.subrange(i as int, i + m)[k as int] == s@[i + k]);
                }
            }
            return false;
        }
        k += 1;
    }
    proof {
        assert(s@.subrange(i as int, i + m) =~= pat@);
    }
    true
}

/// Finds the leftmost occurrence of the pattern in `s`, by characters.
pub fn find_sub(s: &str, pat: &str) -> (r: Option<usize>)
    ensures
        match r {
            Some(i) => first_match(s@, pat@) == Some(i as int),
            None => first_match(s@, pat@) is None,
        },
{
    let n: usize = s.unicode_len();
    let m: usize = pat.unicode_len();
    if m == 0 {
        proof {
            assert(s@.subrange(0, 0) =~= pat@);
            lemma_first_match_position(s@, pat@, 0);
        }
        return Some(0);
    }
    if m > n {
        proof {
            lemma_first_match_absent(s@, pat@);
        }
        return None;
    }
    let mut i: usize = 0;
    while i <= n - m
        invariant
            1 <= m <= n,
            i <= n - m + 1,
            n == s@.len(),
            m == pat@.len(),
            forall|j: int| 0 <= j < i ==> !match_at(s@, pat@, j),
        decreases n - i,
    {
        if matches_at(s, n, pat, m, i) {
            proof {
                lemma_first_match_position(s@, pat@, i as int);
            }
            return Some(i);
        }
        i += 1;
    }
    proof {
        assert forall|j: int| !match_at(s@, pat@, j) by {
            if j >= i {
                assert(j + m > n);
            }
        }
        lemma_first_match_absent(s@, pat@);
    }
    None
}

} // verus!
