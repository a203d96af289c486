//! Case-insensitive subsequence search over path strings, with basename hits ranked first.

use crate::text::{ascii_lower, chars_of, lower};
use vstd::prelude::*;
use vstd::string::*;
use vstd::utf8::*;

verus! {

/// A text with every ASCII letter in lower case.
pub open spec fn folded(s: Seq<char>) -> Seq<char> {
    s.map_values(|c: char| ascii_lower(c))
}

/// `at` places the characters of `needle` in `haystack`, in order.
pub open spec fn embeds(needle: Seq<char>, haystack: Seq<char>, at: Seq<int>) -> bool {
    &&& at.len() == needle.len()
    &&& forall|i: int| 0 <= i < at.len() ==> 0 <= #[trigger] at[i] < haystack.len()
        && haystack[at[i]] == needle[i]
    &&& forall|i: int, j: int| 0 <= i < j < at.len() ==> #[trigger] at[i] < #[trigger] at[j]
}

/// Every character of `needle` occurs in `haystack`, in order.
pub open spec fn subsequence(needle: Seq<char>, haystack: Seq<char>) -> bool {
    exists|at: Seq<int>| embeds(needle, haystack, at)
}

/// The part of a path after its last `/`, or the whole path.
pub open spec fn basename(path: Seq<char>) -> Seq<char>
    decreases path.len(),
{
    if path.len() == 0 {
        path
    } else if path.last() == '/' {
        Seq::empty()
    } else {
        basename(path.drop_last()).push(path.last())
    }
}

/// The query is a subsequence of the path, letters compared without case.
pub open spec fn hit(query: Seq<char>, path: Seq<char>) -> bool {
    subsequence(folded(query), folded(path))
}

/// The query is a subsequence of the path's last component alone.
pub open spec fn basename_hit(query: Seq<char>, path: Seq<char>) -> bool {
    subsequence(folded(query), folded(basename(path)))
}

/// A hit is better than another: one inside the basename than one that needs directory characters,
/// and of two hits of one kind the one whose path is shorter in bytes.
pub open spec fn better(query: Seq<char>, a: Seq<char>, b: Seq<char>) -> bool {
    if basename_hit(query, a) != basename_hit(query, b) {
        basename_hit(query, a)
    } else {
        encode_utf8(a).len() < encode_utf8(b).len()
    }
}

/// Candidate `a` is listed before candidate `b`: the better hit first, and of equally good ones the
/// one that came first among the candidates.
pub open spec fn ranks_before(query: Seq<char>, candidates: Seq<String>, a: usize, b: usize) -> bool {
    let (pa, pb) = (candidates[a as int]@, candidates[b as int]@);
    better(query, pa, pb) || (!better(query, pb, pa) && a < b)
}

/// `ranked` lists exactly the candidates below `n` that the query hits, best first.
pub open spec fn ranking_of(
    query: Seq<char>,
    candidates: Seq<String>,
    n: int,
    ranked: Seq<usize>,
) -> bool {
    &&& forall|k: int| 0 <= k < ranked.len() ==> (#[trigger] ranked[k] as int) < n && hit(
        query,
        candidates[ranked[k] as int]@,
    )
    &&& forall|i: usize| (i as int) < n && #[trigger] hit(query, candidates[i as int]@)
        ==> ranked.contains(i)
    &&& forall|j: int, k: int|
        0 <= j < k < ranked.len() ==> ranks_before(
            query,
            candidates,
            #[trigger] ranked[j],
            #[trigger] ranked[k],
        )
}

/// The ranked hits of a query: none for an empty query.
pub open spec fn ranking(query: Seq<char>, candidates: Seq<String>, ranked: Seq<usize>) -> bool {
    if query.len() == 0 {
        ranked.len() == 0
    } else {
        ranking_of(query, candidates, candidates.len() as int, ranked)
    }
}

/// A query and a list of candidates have one ranking.
pub proof fn ranking_is_unique(
    query: Seq<char>,
    candidates: Seq<String>,
    first: Seq<usize>,
    second: Seq<usize>,
)
    requires
        ranking(query, candidates, first),
        ranking(query, candidates, second),
    ensures
        first == second,
{
    if query.len() > 0 {
        let n = candidates.len() as int;
        lemma_prefix_agrees(query, candidates, n, first, second, first.len() as int);
        lemma_prefix_agrees(query, candidates, n, second, first, second.len() as int);
        assert(first =~= second);
    } else {
        assert(first =~= second);
    }
}

/// The first `m` entries of a ranking are those of any other ranking of the same hits.
proof fn lemma_prefix_agrees(
    query: Seq<char>,
    candidates: Seq<String>,
    n: int,
    first: Seq<usize>,
    second: Seq<usize>,
    m: int,
)
    requires
        0 <= m <= first.len(),
        ranking_of(query, candidates, n, first),
        ranking_of(query, candidates, n, second),
    ensures
        m <= second.len(),
        forall|k: int| 0 <= k < m ==> first[k] == second[k],
    decreases m,
{
    if m > 0 {
        lemma_prefix_agrees(query, candidates, n, first, second, m - 1);
        let k = m - 1;
        let x = first[k];
        assert(hit(query, candidates[x as int]@));
        assert(second.contains(x));
        let p = choose|p: int| 0 <= p < second.len() && second[p] == x;
        if p < k {
            assert(first[p] == second[p]);
            assert(ranks_before(query, candidates, first[p], first[k]));
        }
        assert(p >= k);
        let y = second[k];
        assert(hit(query, candidates[y as int]@));
        assert(first.contains(y));
        let q = choose|q: int| 0 <= q < first.len() && first[q] == y;
        if q < k {
            assert(second[q] == first[q]);
            assert(ranks_before(query, candidates, second[q], second[k]));
        }
        assert(q >= k);
        if p > k {
            assert(ranks_before(query, candidates, second[k], second[p]));
            if q > k {
                assert(ranks_before(query, candidates, first[k], first[q]));
            }
        }
    }
}

/// Every hit inside a basename is listed before every hit that needs directory characters.
pub proof fn basename_hits_come_first(
    query: Seq<char>,
    candidates: Seq<String>,
    ranked: Seq<usize>,
    j: int,
    k: int,
)
    requires
        query.len() > 0,
        ranking(query, candidates, ranked),
        0 <= j < ranked.len(),
        0 <= k < ranked.len(),
        basename_hit(query, candidates[ranked[j] as int]@),
        !basename_hit(query, candidates[ranked[k] as int]@),
    ensures
        j < k,
{
    if k < j {
        assert(ranks_before(query, candidates, ranked[k], ranked[j]));
    }
}

/// Among hits of one kind the shorter path comes first, and of equally long paths the one that
/// came first among the candidates.
pub proof fn shorter_hits_come_first(
    query: Seq<char>,
    candidates: Seq<String>,
    ranked: Seq<usize>,
    j: int,
    k: int,
)
    requires
        query.len() > 0,
        ranking(query, candidates, ranked),
        0 <= j < k < ranked.len(),
        basename_hit(query, candidates[ranked[j] as int]@) == basename_hit(
            query,
            candidates[ranked[k] as int]@,
        ),
    ensures
        encode_utf8(candidates[ranked[j] as int]@).len() <= encode_utf8(
            candidates[ranked[k] as int]@,
        ).len(),
        encode_utf8(candidates[ranked[j] as int]@).len() == encode_utf8(
            candidates[ranked[k] as int]@,
        ).len() ==> ranked[j] < ranked[k],
{
    assert(ranks_before(query, candidates, ranked[j], ranked[k]));
}

/// Removing the first character of a needle that the haystack starts with.
proof fn lemma_embeds_tail(needle: Seq<char>, haystack: Seq<char>, from: int, hi: int)
    requires
        0 <= from <= hi < haystack.len(),
        needle.len() > 0,
        haystack[hi] == needle[0],
        forall|k: int| from <= k < hi ==> haystack[k] != needle[0],
    ensures
        subsequence(needle, haystack.skip(from)) == subsequence(
            needle.skip(1),
            haystack.skip(hi + 1),
        ),
{
    let (h1, h2, rest) = (haystack.skip(from), haystack.skip(hi + 1), needle.skip(1));
    if subsequence(needle, h1) {
        let at = choose|at: Seq<int>| embeds(needle, h1, at);
        assert(h1[at[0]] == needle[0]);
        assert(haystack[from + at[0]] == needle[0]);
        assert(from + at[0] >= hi);
        let shifted = Seq::new(rest.len(), |i: int| at[i + 1] + from - (hi + 1));
        assert forall|i: int| 0 <= i < shifted.len() implies 0 <= #[trigger] shifted[i] < h2.len()
            && h2[shifted[i]] == rest[i] by {
            assert(at[0] < at[i + 1]);
            assert(h1[at[i + 1]] == needle[i + 1]);
        }
        assert forall|i: int, j: int| 0 <= i < j < shifted.len() implies #[trigger] shifted[i]
            < #[trigger] shifted[j] by {
            assert(at[i + 1] < at[j + 1]);
        }
        assert(embeds(rest, h2, shifted));
    }
    if subsequence(rest, h2) {
        let at = choose|at: Seq<int>| embeds(rest, h2, at);
        let full = Seq::new(
            needle.len(),
            |i: int| if i == 0 { hi - from } else { at[i - 1] + (hi + 1) - from },
        );
        assert forall|i: int| 0 <= i < full.len() implies 0 <= #[trigger] full[i] < h1.len()
            && h1[full[i]] == needle[i] by {
            if i > 0 {
                assert(h2[at[i - 1]] == rest[i - 1]);
            }
        }
        assert forall|i: int, j: int| 0 <= i < j < full.len() implies #[trigger] full[i]
            < #[trigger] full[j] by {
            if i > 0 {
                assert(at[i - 1] < at[j - 1]);
            } else {
                assert(0 <= at[j - 1]);
            }
        }
        assert(embeds(needle, h1, full));
    }
}

/// Tests whether every character of `needle` appears in `haystack` in order.
pub fn is_subsequence(needle: &[char], haystack: &[char]) -> (r: bool)
    ensures
        r == subsequence(needle@, haystack@),
{
    let mut hi: usize = 0;
    let mut ni: usize = 0;
    assert(needle@.skip(0) == needle@);
    assert(haystack@.skip(0) == haystack@);
    while ni < needle.len()
        invariant
            ni <= needle.len(),
            hi <= haystack.len(),
            subsequence(needle@, haystack@) == subsequence(
                needle@.skip(ni as int),
                haystack@.skip(hi as int),
            ),
        decreases needle.len() - ni,
    {
        let ch = needle[ni];
        let ghost start = hi as int;
        while hi < haystack.len() && haystack[hi] != ch
            invariant
                start <= hi <= haystack.len(),
                forall|k: int| start <= k < hi ==> haystack@[k] != ch,
            decreases haystack.len() - hi,
        {
            hi += 1;
        }
        if hi == haystack.len() {
            proof {
                let (n1, h1) = (needle@.skip(ni as int), haystack@.skip(start));
                assert(n1[0] == ch);
                if subsequence(n1, h1) {
                    let at = choose|at: Seq<int>| embeds(n1, h1, at);
                    assert(h1[at[0]] == ch);
                    assert(haystack@[start + at[0]] == ch);
                }
            }
            return false;
        }
        proof {
            lemma_embeds_tail(needle@.skip(ni as int), haystack@, start, hi as int);
            assert(needle@.skip(ni as int).skip(1) == needle@.skip(ni + 1));
        }
        hi += 1;
        ni += 1;
    }
    proof {
        let (n1, h1) = (needle@.skip(ni as int), haystack@.skip(hi as int));
        assert(embeds(n1, h1, Seq::empty()));
    }
    true
}

/// The characters of a text with every ASCII letter in lower case.
fn folded_chars(chars: &[char]) -> (r: Vec<char>)
    ensures
        r@ == folded(chars@),
{
    let mut out: Vec<char> = Vec::new();
    for i in 0..chars.len()
        invariant
            out@ == folded(chars@.take(i as int)),
    {
        out.push(lower(chars[i]));
        assert(folded(chars@.take(i + 1)) =~= folded(chars@.take(i as int)).push(
            ascii_lower(chars@[i as int]),
        ));
    }
    assert(chars@.take(chars.len() as int) == chars@);
    out
}

/// The basename is the part of the path that follows its last slash.
proof fn lemma_basename(path: Seq<char>, cut: int)
    requires
        0 <= cut <= path.len(),
        cut == 0 || path[cut - 1] == '/',
        forall|k: int| cut <= k < path.len() ==> path[k] != '/',
    ensures
        basename(path) == path.skip(cut),
    decreases path.len(),
{
    if path.len() > cut {
        lemma_basename(path.drop_last(), cut);
        assert(path.skip(cut) =~= path.drop_last().skip(cut).push(path.last()));
    } else {
        assert(path.skip(cut) =~= Seq::empty());
    }
}

/// How good a hit is: whether it lies inside the basename, and how long the path is.
#[derive(Debug, Clone, Copy)]
struct Score {
    in_basename: bool,
    length: usize,
}

impl Score {
    /// The score of a path.
    spec fn of(self, query: Seq<char>, path: Seq<char>) -> bool {
        self.in_basename == basename_hit(query, path) && self.length == encode_utf8(path).len()
    }

    /// A better score.
    spec fn tops(self, other: Score) -> bool {
        if self.in_basename != other.in_basename {
            self.in_basename
        } else {
            self.length < other.length
        }
    }

    /// Whether this score is better.
    fn beats(self, other: Score) -> (r: bool)
        ensures
            r == self.tops(other),
    {
        if self.in_basename != other.in_basename {
            self.in_basename
        } else {
            self.length < other.length
        }
    }
}

/// The score of a path for an already folded query, or `None` when the path is no hit.
fn score(query_chars: &[char], path: &str, Ghost(query): Ghost<Seq<char>>) -> (r: Option<Score>)
    requires
        query_chars@ == folded(query),
    ensures
        r is Some <==> hit(query, path@),
        r matches Some(score) ==> score.of(query, path@),
{
    let chars = chars_of(path);
    let path_lower = folded_chars(chars.as_slice());
    if !is_subsequence(query_chars, path_lower.as_slice()) {
        return None;
    }
    let mut cut: usize = chars.len();
    while cut > 0 && chars[cut - 1] != '/'
        invariant
            cut <= chars.len(),
            forall|k: int| cut <= k < chars.len() ==> chars@[k] != '/',
        decreases cut,
    {
        cut -= 1;
    }
    proof {
        lemma_basename(chars@, cut as int);
    }
    let base = vstd::slice::slice_subrange(chars.as_slice(), cut, chars.len());
    assert(base@ =~= chars@.skip(cut as int));
    let base_lower = folded_chars(base);
    let in_basename = is_subsequence(query_chars, base_lower.as_slice());
    Some(Score { in_basename, length: path.as_bytes().len() })
}

/// Returns the indices of `candidates` that `query` hits, best first: basename hits before
/// hits that need directory characters, then shorter paths, then earlier candidates. An empty
/// query hits nothing.
pub fn match_and_rank(query: &str, candidates: &[String]) -> (r: Vec<usize>)
    ensures
        ranking(query@, candidates@, r@),
{
    let mut ranked: Vec<usize> = Vec::new();
    if query.is_empty() {
        return ranked;
    }
    let query_chars = folded_chars(chars_of(query).as_slice());
    let mut scores: Vec<Score> = Vec::new();
    for i in 0..candidates.len()
        invariant
            query_chars@ == folded(query@),
            scores.len() == ranked.len(),
            forall|k: int|
                0 <= k < scores.len() ==> (#[trigger] scores@[k]).of(
                    query@,
                    candidates@[ranked@[k] as int]@,
                ),
            ranking_of(query@, candidates@, i as int, ranked@),
    {
        let ghost before = ranked@;
        match score(query_chars.as_slice(), candidates[i].as_str(), Ghost(query@)) {
            None => {},
            Some(score) => {
                let mut at: usize = scores.len();
                while at > 0 && score.beats(scores[at - 1])
                    invariant
                        at <= scores.len(),
                        forall|k: int| at <= k < scores.len() ==> score.tops(#[trigger] scores@[k]),
                    decreases at,
                {
                    at -= 1;
                }
                proof {
                    assert forall|k: int| 0 <= k < at implies !score.tops(#[trigger] scores@[k]) by {
                        if k < at - 1 {
                            assert(ranks_before(query@, candidates@, before[k], before[at - 1]));
                            assert(!score.tops(scores@[at - 1]));
                        }
                    }
                }
                let ghost old_scores = scores@;
                scores.insert(at, score);
                ranked.insert(at, i);
                proof {
                    assert(old_scores.len() == before.len());
                    assert forall|j: usize| (j as int) < i + 1 && #[trigger] hit(
                        query@,
                        candidates@[j as int]@,
                    ) implies ranked@.contains(j) by {
                        if j == i {
                            assert(ranked@[at as int] == j);
                        } else {
                            assert(before.contains(j));
                            let p = choose|p: int| 0 <= p < before.len() && before[p] == j;
                            if p < at {
                                assert(ranked@[p] == j);
                            } else {
                                assert(ranked@[p + 1] == j);
                            }
                        }
                    }
                    assert forall|j: int, k: int| 0 <= j < k < ranked@.len() implies ranks_before(
                        query@,
                        candidates@,
                        #[trigger] ranked@[j],
                        #[trigger] ranked@[k],
                    ) by {
                        let (pj, pk) = (
                            if j < at { j } else { j - 1 },
                            if k < at { k } else { k - 1 },
                        );
                        if j == at {
                            assert(score.tops(old_scores[pk]));
                            assert(ranked@[k] == before[pk]);
                        } else if k == at {
                            assert(!score.tops(old_scores[pj]));
                            assert(ranked@[j] == before[pj]);
                            assert((before[pj] as int) < i);
                        } else {
                            assert(ranks_before(query@, candidates@, before[pj], before[pk]));
                        }
                    }
                }
            },
        }
    }
    ranked
}

} // verus!
