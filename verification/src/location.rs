use vstd::prelude::*;

use vstd::seq_lib::group_to_multiset_ensures;

verus! {

/// One source line reported for a hit: a 1-based line number and the
/// line's text with trailing whitespace removed.
#[derive(Debug, Clone)]
pub struct Line {
    /// 1-based line number, in file read order.
    pub number: u32,
    /// The line's verbatim text, trailing whitespace trimmed.
    pub text: String,
}

/// What `str::trim_end` returns: a function of the characters alone.
pub uninterp spec fn trimmed_end_of(s: Seq<char>) -> Seq<char>;

/// Whether `char::is_whitespace` holds of a character: a function of
/// the character alone.
pub uninterp spec fn is_whitespace_char(c: char) -> bool;

/// Relies on str::trim_end: removes trailing whitespace and nothing
/// else, so the result is the longest prefix of the input that does
/// not end in whitespace — in particular, a text whose last character
/// is not whitespace comes back unchanged. Depends on the characters
/// alone.
#[verifier::external_body]
fn trim_end_of(s: &String) -> (r: String)
    ensures
        r@ == trimmed_end_of(s@),
        r@.len() <= s@.len(),
        r@ == s@.subrange(0, r@.len() as int),
        forall|j: int| r@.len() <= j < s@.len() ==> is_whitespace_char(#[trigger] s@[j]),
        r@.len() > 0 ==> !is_whitespace_char(r@[r@.len() - 1]),
        s@.len() > 0 && !is_whitespace_char(s@[s@.len() - 1]) ==> r@ == s@,
{
    String::from(s.trim_end())
}

/// The index of the first newline in `s`, or `s.len()` if none.
pub open spec fn find_nl(s: Seq<char>) -> nat
    decreases s.len(),
{
    if s.len() == 0 {
        0
    } else if s[0] == '\n' {
        0
    } else {
        1 + find_nl(s.drop_first())
    }
}

proof fn lemma_find_nl_bounds(s: Seq<char>)
    ensures
        0 <= find_nl(s) <= s.len(),
        find_nl(s) < s.len() ==> s[find_nl(s) as int] == '\n',
        forall|j: int| 0 <= j < find_nl(s) ==> s[j] != '\n',
    decreases s.len(),
{
    if s.len() == 0 {
    } else if s[0] == '\n' {
    } else {
        lemma_find_nl_bounds(s.drop_first());
        assert(forall|j: int|
            0 <= j < find_nl(s) ==> #[trigger] s[j] == (if j == 0 {
                s[0]
            } else {
                s.drop_first()[j - 1]
            }));
    }
}

proof fn lemma_find_nl_at(s: Seq<char>, k: int)
    requires
        0 <= k <= s.len(),
        forall|j: int| 0 <= j < k ==> s[j] != '\n',
        k < s.len() ==> s[k] == '\n',
    ensures
        find_nl(s) == k,
    decreases s.len(),
{
    if s.len() == 0 {
    } else if s[0] == '\n' {
        assert(k == 0);
    } else {
        assert(k >= 1);
        assert(forall|j: int| 0 <= j < k - 1 ==> s.drop_first()[j] == s[j + 1]);
        lemma_find_nl_at(s.drop_first(), k - 1);
    }
}

/// The lines of a text: maximal newline-free segments.
///
/// A trailing newline ends the last line rather than opening an empty
/// one, matching a line-by-line file reader.
pub open spec fn spec_split_lines(s: Seq<char>) -> Seq<Seq<char>>
    decreases s.len(),
{
    if s.len() == 0 {
        Seq::empty()
    } else {
        let k = find_nl(s) as int;
        if k >= s.len() {
            seq![s]
        } else {
            seq![s.subrange(0, k)] + spec_split_lines(s.subrange(k + 1, s.len() as int))
        }
    }
}

proof fn lemma_split_lines_step(s: Seq<char>, k: int)
    requires
        0 <= k < s.len(),
        s[k] == '\n',
        forall|j: int| 0 <= j < k ==> s[j] != '\n',
    ensures
        spec_split_lines(s) == seq![s.subrange(0, k)] + spec_split_lines(
            s.subrange(k + 1, s.len() as int),
        ),
{
    lemma_find_nl_at(s, k);
}

proof fn lemma_split_lines_nolf(s: Seq<char>)
    requires
        forall|j: int| 0 <= j < s.len() ==> s[j] != '\n',
    ensures
        s.len() == 0 ==> spec_split_lines(s) == Seq::<Seq<char>>::empty(),
        s.len() > 0 ==> spec_split_lines(s) == seq![s],
{
    if s.len() > 0 {
        lemma_find_nl_at(s, s.len() as int);
    }
}

/// Splits a text into its lines.
///
/// Line terminators are single newlines; each returned line excludes
/// its terminator, and a trailing newline does not open a final empty
/// line.
pub fn split_lines(contents: &str) -> (r: Vec<String>)
    ensures
        r.deep_view() == spec_split_lines(contents@),
{
    let n = contents.unicode_len();
    let mut r: Vec<String> = Vec::new();
    let mut start: usize = 0;
    let mut i: usize = 0;
    proof {
        assert(contents@.subrange(0, n as int) =~= contents@);
        assert(r.deep_view() + spec_split_lines(contents@) =~= spec_split_lines(contents@));
    }
    while i < n
        invariant
            n == contents@.len(),
            0 <= start <= i <= n,
            forall|j: int| start <= j < i ==> contents@[j] != '\n',
            spec_split_lines(contents@) == r.deep_view() + spec_split_lines(
                contents@.subrange(start as int, n as int),
            ),
        decreases n - i,
    {
        let c = contents.get_char(i);
        if c == '\n' {
            let piece = contents.substring_char(start, i);
            let ghost suffix = contents@.subrange(start as int, n as int);
            proof {
                assert(suffix.len() == n - start);
                assert(forall|j: int| 0 <= j < i - start ==> suffix[j] == contents@[start + j]);
                assert(suffix[i - start] == '\n');
                lemma_split_lines_step(suffix, i - start);
                assert(suffix.subrange(0, i - start) =~= contents@.subrange(
                    start as int,
                    i as int,
                ));
                assert(suffix.subrange(i - start + 1, suffix.len() as int) =~= contents@.subrange(
                    i + 1,
                    n as int,
                ));
            }
            let line = String::from_str(piece);
            r.push(line);
            proof {
                assert(r.deep_view() =~= r.deep_view().subrange(0, r.deep_view().len() - 1).push(
                    contents@.subrange(start as int, i as int),
                ));
            }
            start = i + 1;
        }
        i += 1;
    }
    proof {
        let suffix = contents@.subrange(start as int, n as int);
        assert(forall|j: int| 0 <= j < suffix.len() ==> suffix[j] == contents@[start + j]);
        lemma_split_lines_nolf(suffix);
    }
    if start < n {
        let piece = contents.substring_char(start, n);
        let line = String::from_str(piece);
        r.push(line);
        proof {
            assert(r.deep_view() =~= r.deep_view().subrange(0, r.deep_view().len() - 1).push(
                contents@.subrange(start as int, n as int),
            ));
            assert(r.deep_view() =~= spec_split_lines(contents@));
        }
    } else {
        proof {
            assert(r.deep_view() + Seq::<Seq<char>>::empty() =~= r.deep_view());
        }
    }
    r
}

/// Positions are in ascending order.
pub open spec fn sorted_u32(s: Seq<u32>) -> bool {
    forall|k1: int, k2: int| 0 <= k1 <= k2 < s.len() ==> s[k1] <= s[k2]
}

/// Sorts occurrence positions ascending, keeping every occurrence.
///
/// This is the min-extraction structure of the localization engine: the
/// positions harvested per hit, drained smallest first.
pub fn sort_positions(v: &Vec<u32>) -> (r: Vec<u32>)
    ensures
        sorted_u32(r@),
        r@.to_multiset() == v@.to_multiset(),
        r@.len() == v@.len(),
{
    broadcast use group_to_multiset_ensures;

    let mut r: Vec<u32> = Vec::new();
    let mut i: usize = 0;
    proof {
        assert(r@.to_multiset() =~= v@.subrange(0, 0).to_multiset());
    }
    while i < v.len()
        invariant
            i <= v@.len(),
            sorted_u32(r@),
            r@.len() == i,
            r@.to_multiset() == v@.subrange(0, i as int).to_multiset(),
        decreases v@.len() - i,
    {
        let x = v[i];
        let mut k: usize = 0;
        while k < r.len() && r[k] <= x
            invariant
                k <= r@.len(),
                forall|j: int| 0 <= j < k ==> r@[j] <= x,
            decreases r@.len() - k,
        {
            k += 1;
        }
        proof {
            assert(k < r@.len() ==> r@[k as int] > x);
        }
        let ghost old_r = r@;
        r.insert(k, x);
        proof {
            vstd::seq_lib::to_multiset_insert(old_r, k as int, x);
            vstd::seq_lib::to_multiset_build(v@.subrange(0, i as int), x);
            assert(forall|j: int| 0 <= j < k ==> r@[j] == old_r[j]);
            assert(r@[k as int] == x);
            assert(forall|j: int| k < j < r@.len() ==> r@[j] == old_r[j - 1]);
            assert(sorted_u32(r@)) by {
                assert(forall|k1: int, k2: int|
                    0 <= k1 <= k2 < r@.len() ==> r@[k1] <= r@[k2]) by {
                    assert(forall|j: int| k < j < r@.len() ==> r@[j] >= x);
                }
            }
            assert(v@.subrange(0, i + 1).drop_last() =~= v@.subrange(0, i as int));
            assert(v@.subrange(0, i + 1) =~= v@.subrange(0, i as int).push(x));
        }
        i += 1;
    }
    proof {
        assert(v@.subrange(0, v@.len() as int) =~= v@);
    }
    r
}

/// The token index at which line `i` begins: the total token count of
/// the lines before it.
pub open spec fn line_start(counts: Seq<u32>, i: int) -> int
    decreases i,
{
    if i <= 0 {
        0
    } else {
        line_start(counts, i - 1) + counts[i - 1]
    }
}

proof fn lemma_line_start_bound(counts: Seq<u32>, i: int)
    requires
        0 <= i <= counts.len(),
    ensures
        line_start(counts, i) <= i * (u32::MAX as int),
    decreases i,
{
    if i > 0 {
        lemma_line_start_bound(counts, i - 1);
        assert((i - 1) * (u32::MAX as int) + (u32::MAX as int) == i * (u32::MAX as int))
            by (nonlinear_arith);
    }
}

/// Whether some occurrence position falls into line `i`'s token range.
pub open spec fn line_has_match(counts: Seq<u32>, positions: Seq<u32>, i: int) -> bool {
    exists|k: int|
        0 <= k < positions.len() && line_start(counts, i) <= #[trigger] positions[k] < line_start(
            counts,
            i,
        ) + counts[i]
}

/// The indices of the lines among the first `i` that contain a match,
/// in ascending order.
pub open spec fn matched_upto(counts: Seq<u32>, positions: Seq<u32>, i: int) -> Seq<int>
    decreases i,
{
    if i <= 0 {
        Seq::empty()
    } else if line_has_match(counts, positions, i - 1) {
        matched_upto(counts, positions, i - 1).push(i - 1)
    } else {
        matched_upto(counts, positions, i - 1)
    }
}

/// Which lines the engine reports for a hit: for each matched line, its
/// 1-based number and its trimmed text, in file order.
pub open spec fn spec_line_matches(texts: Seq<Seq<char>>, counts: Seq<u32>, positions: Seq<u32>)
    -> Seq<(u32, Seq<char>)> {
    matched_upto(counts, positions, texts.len() as int).map_values(
        |i: int| ((i + 1) as u32, trimmed_end_of(texts[i])),
    )
}

/// Every reported line index lies among the first `i` lines.
pub proof fn lemma_matched_upto_range(counts: Seq<u32>, positions: Seq<u32>, i: int)
    ensures
        forall|k: int|
            0 <= k < matched_upto(counts, positions, i).len() ==> 0 <= #[trigger] matched_upto(
                counts,
                positions,
                i,
            )[k] < i,
    decreases i,
{
    if i > 0 {
        lemma_matched_upto_range(counts, positions, i - 1);
        let m = matched_upto(counts, positions, i - 1);
        assert forall|k: int|
            0 <= k < matched_upto(counts, positions, i).len() implies 0 <= #[trigger] matched_upto(
            counts,
            positions,
            i,
        )[k] < i by {
            if line_has_match(counts, positions, i - 1) {
                assert(matched_upto(counts, positions, i) == m.push(i - 1));
                if k < m.len() {
                    assert(matched_upto(counts, positions, i)[k] == m[k]);
                } else {
                    assert(matched_upto(counts, positions, i)[k] == i - 1);
                }
            } else {
                assert(matched_upto(counts, positions, i) == m);
            }
        }
    }
}

/// A line index is reported exactly when that line contains a match.
pub proof fn lemma_matched_upto_iff(counts: Seq<u32>, positions: Seq<u32>, i: int, l: int)
    requires
        0 <= l < i,
    ensures
        matched_upto(counts, positions, i).contains(l) <==> line_has_match(counts, positions, l),
    decreases i,
{
    lemma_matched_upto_range(counts, positions, i);
    if i > 0 {
        if l < i - 1 {
            lemma_matched_upto_iff(counts, positions, i - 1, l);
            if matched_upto(counts, positions, i - 1).contains(l) {
                let k = choose|k: int|
                    0 <= k < matched_upto(counts, positions, i - 1).len() && #[trigger] matched_upto(
                        counts,
                        positions,
                        i - 1,
                    )[k] == l;
                assert(matched_upto(counts, positions, i)[k] == l);
            }
        } else {
            lemma_matched_upto_range(counts, positions, i - 1);
            if matched_upto(counts, positions, i).contains(l) {
                assert(line_has_match(counts, positions, l)) by {
                    let k = choose|k: int|
                        0 <= k < matched_upto(counts, positions, i).len() && #[trigger] matched_upto(
                            counts,
                            positions,
                            i,
                        )[k] == l;
                    if k < matched_upto(counts, positions, i - 1).len() {
                        assert(matched_upto(counts, positions, i - 1)[k] == l);
                    }
                }
            }
            if line_has_match(counts, positions, l) {
                assert(matched_upto(counts, positions, i).last() == l);
            }
        }
    }
}

/// Reported line indices are strictly ascending: no line is reported
/// twice, and lines come in file order.
pub proof fn lemma_matched_upto_ascending(counts: Seq<u32>, positions: Seq<u32>, i: int)
    ensures
        forall|k1: int, k2: int|
            0 <= k1 < k2 < matched_upto(counts, positions, i).len() ==> matched_upto(
                counts,
                positions,
                i,
            )[k1] < matched_upto(counts, positions, i)[k2],
    decreases i,
{
    if i > 0 {
        lemma_matched_upto_ascending(counts, positions, i - 1);
        lemma_matched_upto_range(counts, positions, i - 1);
        let m = matched_upto(counts, positions, i - 1);
        assert forall|k1: int, k2: int|
            0 <= k1 < k2 < matched_upto(counts, positions, i).len() implies matched_upto(
            counts,
            positions,
            i,
        )[k1] < matched_upto(counts, positions, i)[k2] by {
            if line_has_match(counts, positions, i - 1) {
                assert(matched_upto(counts, positions, i) == m.push(i - 1));
                assert(matched_upto(counts, positions, i)[k1] == m[k1]);
                if k2 < m.len() {
                    assert(matched_upto(counts, positions, i)[k2] == m[k2]);
                } else {
                    assert(matched_upto(counts, positions, i)[k2] == i - 1);
                    assert(m[k1] < i - 1);
                }
            } else {
                assert(matched_upto(counts, positions, i) == m);
            }
        }
    }
}

/// Maps harvested token positions to source lines.
///
/// `texts` are the file's lines, `counts[i]` the number of tokens the
/// analysis pipeline yields for line `i`, and `positions` the pending
/// occurrence positions, ascending. Line `i` owns the token range
/// `[line_start(i), line_start(i) + counts[i])`; it is reported, once,
/// exactly when some pending position falls in that range. Positions
/// beyond the last line's range resolve to nothing: they are dropped
/// without error.
pub fn positions_to_lines(texts: &Vec<String>, counts: &Vec<u32>, positions: &Vec<u32>) -> (r:
    Vec<Line>)
    requires
        counts@.len() == texts@.len(),
        texts@.len() < u32::MAX,
        sorted_u32(positions@),
    ensures
        r@.map_values(|l: Line| (l.number, l.text@)) == spec_line_matches(
            texts.deep_view(),
            counts@,
            positions@,
        ),
{
    let ghost pos = positions@;
    let ghost cts = counts@;
    let n = texts.len();
    let mut r: Vec<Line> = Vec::new();
    let mut i: usize = 0;
    let mut j: usize = 0;
    let mut num_tokens: u64 = 0;
    proof {
        assert(r@.map_values(|l: Line| (l.number, l.text@)) =~= matched_upto(
            cts,
            pos,
            0,
        ).map_values(|q: int| ((q + 1) as u32, trimmed_end_of(texts.deep_view()[q]))));
    }
    while i < n
        invariant
            n == texts@.len(),
            n == cts.len(),
            n < u32::MAX,
            pos == positions@,
            cts == counts@,
            sorted_u32(pos),
            i <= n,
            j <= pos.len(),
            num_tokens == line_start(cts, i as int),
            num_tokens <= u64::MAX - u32::MAX,
            forall|k: int| 0 <= k < j ==> pos[k] < line_start(cts, i as int),
            forall|k: int| j <= k < pos.len() ==> pos[k] >= line_start(cts, i as int),
            r@.map_values(|l: Line| (l.number, l.text@)) == matched_upto(
                cts,
                pos,
                i as int,
            ).map_values(|q: int| ((q + 1) as u32, trimmed_end_of(texts.deep_view()[q]))),
        decreases n - i,
    {
        let cnt = counts[i];
        let end: u64 = num_tokens + cnt as u64;
        assert(end == line_start(cts, i as int) + cts[i as int]);
        if j < positions.len() && (positions[j] as u64) < end {
            assert(line_has_match(cts, pos, i as int)) by {
                assert(line_start(cts, i as int) <= pos[j as int] < line_start(cts, i as int)
                    + cts[i as int]);
            }
            let text = trim_end_of(&texts[i]);
            let number: u32 = (i + 1) as u32;
            let ghost old_map = r@.map_values(|l: Line| (l.number, l.text@));
            r.push(Line { number, text });
            proof {
                assert(r@.map_values(|l: Line| (l.number, l.text@)) =~= old_map.push(
                    (number, trimmed_end_of(texts.deep_view()[i as int])),
                ));
                assert(matched_upto(cts, pos, i + 1) == matched_upto(cts, pos, i as int).push(
                    i as int,
                ));
                assert(r@.map_values(|l: Line| (l.number, l.text@)) =~= matched_upto(
                    cts,
                    pos,
                    i + 1,
                ).map_values(|q: int| ((q + 1) as u32, trimmed_end_of(texts.deep_view()[q]))));
            }
            while j < positions.len() && (positions[j] as u64) < end
                invariant
                    pos == positions@,
                    j <= pos.len(),
                    end <= u64::MAX,
                    forall|k: int| 0 <= k < j ==> pos[k] < end,
                decreases pos.len() - j,
            {
                j += 1;
            }
        } else {
            assert(!line_has_match(cts, pos, i as int)) by {
                assert(forall|k: int| 0 <= k < j ==> pos[k] < line_start(cts, i as int));
                assert(forall|k: int|
                    j <= k < pos.len() ==> #[trigger] pos[k] >= line_start(cts, i as int)
                        + cts[i as int]) by {
                    if j < pos.len() {
                        assert(forall|k: int| j <= k < pos.len() ==> pos[j as int] <= #[trigger] pos[k]);
                    }
                }
            }
            assert(matched_upto(cts, pos, i + 1) == matched_upto(cts, pos, i as int));
        }
        proof {
            assert(forall|k: int| j <= k < pos.len() ==> pos[k] >= end);
        }
        proof {
            lemma_line_start_bound(cts, i + 1);
            assert((i + 1) * (u32::MAX as int) <= (u32::MAX as int) * (u32::MAX as int))
                by (nonlinear_arith)
                requires
                    0 <= i + 1 <= u32::MAX as int,
            ;
            assert((u32::MAX as int) * (u32::MAX as int) <= u64::MAX as int - u32::MAX as int)
                by (nonlinear_arith);
        }
        num_tokens = end;
        i += 1;
    }
    r
}

/// A file line holding two or more occurrences of the queried term
/// produces exactly one reported entry: reported line numbers are
/// strictly ascending (so none repeats), and a line is reported exactly
/// when at least one position falls in its token range.
pub proof fn lemma_line_collapse(texts: Seq<Seq<char>>, counts: Seq<u32>, positions: Seq<u32>)
    requires
        counts.len() == texts.len(),
        texts.len() < u32::MAX,
    ensures
        forall|k1: int, k2: int|
            0 <= k1 < k2 < spec_line_matches(texts, counts, positions).len()
                ==> spec_line_matches(texts, counts, positions)[k1].0 < spec_line_matches(
                texts,
                counts,
                positions,
            )[k2].0,
        forall|l: int|
            0 <= l < texts.len() ==> ((exists|k: int|
                0 <= k < spec_line_matches(texts, counts, positions).len() && spec_line_matches(
                    texts,
                    counts,
                    positions,
                )[k].0 == l + 1) <==> line_has_match(counts, positions, l)),
{
    let m = matched_upto(counts, positions, texts.len() as int);
    lemma_matched_upto_ascending(counts, positions, texts.len() as int);
    lemma_matched_upto_range(counts, positions, texts.len() as int);
    assert forall|l: int| 0 <= l < texts.len() implies ((exists|k: int|
        0 <= k < spec_line_matches(texts, counts, positions).len() && spec_line_matches(
            texts,
            counts,
            positions,
        )[k].0 == l + 1) <==> line_has_match(counts, positions, l)) by {
        lemma_matched_upto_iff(counts, positions, texts.len() as int, l);
        if line_has_match(counts, positions, l) {
            let k = choose|k: int| 0 <= k < m.len() && #[trigger] m[k] == l;
            assert(0 <= m[k] < texts.len());
            assert(spec_line_matches(texts, counts, positions)[k].0 == (l + 1) as u32);
            assert(spec_line_matches(texts, counts, positions)[k].0 == l + 1);
        }
        if exists|k: int|
            0 <= k < spec_line_matches(texts, counts, positions).len() && spec_line_matches(
                texts,
                counts,
                positions,
            )[k].0 == l + 1 {
            let k = choose|k: int|
                0 <= k < spec_line_matches(texts, counts, positions).len() && spec_line_matches(
                    texts,
                    counts,
                    positions,
                )[k].0 == l + 1;
            assert(0 <= m[k] < texts.len());
            assert(spec_line_matches(texts, counts, positions)[k].0 == (m[k] + 1) as u32);
            assert(m[k] == l);
            assert(m.contains(l));
        }
    }
}

} // verus!
