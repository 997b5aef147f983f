//! Reading the number of passed tests out of the text that `cargo test`
//! prints: every line that starts with `test result:` is cut at `;`, and each
//! part that ends with `passed` adds the number written just before that word.

use vstd::prelude::*;
use crate::text::{
    chars_of, has_prefix, lemma_pieces_join, has_suffix, parse_i64, parse_i64_range, pieces, range_has_prefix,
    range_has_suffix, range_views, ranges_within, split_ranges, trim, trim_range, word_ranges, words,
    Sep,
};

verus! {

/// `test result:`
pub open spec fn result_marker() -> Seq<char> {
    seq!['t', 'e', 's', 't', ' ', 'r', 'e', 's', 'u', 'l', 't', ':']
}

/// `passed`
pub open spec fn passed_word() -> Seq<char> {
    seq!['p', 'a', 's', 's', 'e', 'd']
}

/// What one `;`-separated part of a result line adds to the count: the
/// number in the next-to-last word of the trimmed part when the part ends with
/// `passed` and that word reads as an `i64`; nothing otherwise.
pub open spec fn part_count(part: Seq<char>) -> int {
    let t = trim(part);
    let ws = words(t);
    if has_suffix(t, passed_word()) && ws.len() >= 2 {
        match parse_i64(ws[ws.len() - 2]) {
            Some(n) => n,
            None => 0,
        }
    } else {
        0
    }
}

/// The amounts that one line adds, part by part: none unless the line starts
/// with `test result:`.
pub open spec fn line_counts(line: Seq<char>) -> Seq<int> {
    if has_prefix(line, result_marker()) {
        pieces(line.skip(result_marker().len() as int), Sep::Char(';')).map_values(
            |p: Seq<char>| part_count(p),
        )
    } else {
        Seq::<int>::empty()
    }
}

/// The amounts that the lines add, line after line.
pub open spec fn flat_counts(lines: Seq<Seq<char>>) -> Seq<int>
    decreases lines.len(),
{
    if lines.len() == 0 {
        Seq::<int>::empty()
    } else {
        flat_counts(lines.drop_last()) + line_counts(lines.last())
    }
}

/// The amounts that the output adds, in the order in which they are added.
/// The lines are the pieces between line feeds; a carriage return before a
/// line feed is white space and is trimmed off with the rest.
pub open spec fn test_counts(output: Seq<char>) -> Seq<int> {
    flat_counts(pieces(output, Sep::Char('\n')))
}

pub open spec fn sum(xs: Seq<int>) -> int
    decreases xs.len(),
{
    if xs.len() == 0 {
        0
    } else {
        sum(xs.drop_last()) + xs.last()
    }
}

/// Every running total of `xs`, from the first amount on, fits in an `i64`.
pub open spec fn sums_fit(xs: Seq<int>) -> bool {
    forall|k: int| 0 <= k <= xs.len() ==> i64::MIN <= #[trigger] sum(xs.take(k)) <= i64::MAX
}

/// The number of passed tests that `output` reports.
pub open spec fn passed_total(output: Seq<char>) -> int {
    sum(test_counts(output))
}

proof fn lemma_sum_push(xs: Seq<int>, v: int)
    ensures
        sum(xs.push(v)) == sum(xs) + v,
{
    assert(xs.push(v).drop_last() =~= xs);
}

proof fn lemma_sums_fit_push(xs: Seq<int>, v: int)
    ensures
        sums_fit(xs.push(v)) == (sums_fit(xs) && i64::MIN <= sum(xs) + v <= i64::MAX),
{
    let ys = xs.push(v);
    lemma_sum_push(xs, v);
    assert(ys.take(ys.len() as int) =~= ys);
    assert forall|k: int| 0 <= k <= xs.len() implies #[trigger] ys.take(k) == xs.take(k) by {
        assert(ys.take(k) =~= xs.take(k));
    }
    if sums_fit(ys) {
        assert forall|k: int| 0 <= k <= xs.len() implies i64::MIN <= #[trigger] sum(xs.take(k))
            <= i64::MAX by {
            assert(ys.take(k) == xs.take(k));
            assert(i64::MIN <= sum(ys.take(k)) <= i64::MAX);
        }
        assert(xs.take(xs.len() as int) =~= xs);
        assert(i64::MIN <= sum(ys.take(ys.len() as int)) <= i64::MAX);
    }
    if sums_fit(xs) && i64::MIN <= sum(xs) + v <= i64::MAX {
        assert forall|k: int| 0 <= k <= ys.len() implies i64::MIN <= #[trigger] sum(ys.take(k))
            <= i64::MAX by {
            if k <= xs.len() {
                assert(ys.take(k) == xs.take(k));
                assert(i64::MIN <= sum(xs.take(k)) <= i64::MAX);
            }
        }
    }
}

proof fn lemma_flat_counts_step(lines: Seq<Seq<char>>, i: int)
    requires
        0 <= i < lines.len(),
    ensures
        flat_counts(lines.take(i + 1)) == flat_counts(lines.take(i)) + line_counts(lines[i]),
{
    assert(lines.take(i + 1).drop_last() =~= lines.take(i));
}

/// What the part `cs[a..b]` adds; see `part_count`.
fn part_count_range(cs: &Vec<char>, a: usize, b: usize, passed: &Vec<char>) -> (n: i64)
    requires
        a <= b <= cs.len(),
        passed@ == passed_word(),
    ensures
        n == part_count(cs@.subrange(a as int, b as int)),
{
    let (x, y) = trim_range(cs, a, b);
    let ghost t = cs@.subrange(x as int, y as int);
    if !range_has_suffix(cs, x, y, passed) {
        return 0;
    }
    let ws = word_ranges(cs, x, y);
    if ws.len() < 2 {
        return 0;
    }
    let (p, q) = ws[ws.len() - 2];
    assert(ws@[ws.len() - 2] == (p, q));
    assert(words(t)[ws.len() - 2] == cs@.subrange(p as int, q as int));
    match parse_i64_range(cs, p, q) {
        Some(v) => v,
        None => 0,
    }
}

/// The number of passed tests that `output` reports, or `None` where a running
/// total leaves the range of `i64`.
pub fn try_parse_test_count(output: &str) -> (r: Option<i64>)
    ensures
        r is Some <==> sums_fit(test_counts(output@)),
        r matches Some(n) ==> n == passed_total(output@),
{
    let cs = chars_of(output);
    let marker: Vec<char> = vec!['t', 'e', 's', 't', ' ', 'r', 'e', 's', 'u', 'l', 't', ':'];
    let passed: Vec<char> = vec!['p', 'a', 's', 's', 'e', 'd'];
    assert(marker@ =~= result_marker());
    assert(passed@ =~= passed_word());
    assert(cs@.subrange(0, cs@.len() as int) =~= cs@);
    let lines = split_ranges(&cs, 0, cs.len(), Sep::Char('\n'));
    let ghost lv = range_views(cs@, lines@);
    let mut total: i64 = 0;
    let mut fits = true;
    let ghost mut seen: Seq<int> = Seq::<int>::empty();
    assert(lv.take(0) =~= Seq::<Seq<char>>::empty());
    assert(seen.take(0) =~= seen);
    for li in 0..lines.len()
        invariant
            cs@ == output@,
            marker@ == result_marker(),
            passed@ == passed_word(),
            lv == range_views(cs@, lines@),
            lv == pieces(output@, Sep::Char('\n')),
            ranges_within(lines@, 0, cs.len() as int),
            seen == flat_counts(lv.take(li as int)),
            fits == sums_fit(seen),
            fits ==> total == sum(seen),
    {
        let (a, b) = lines[li];
        assert(lines@[li as int] == (a, b));
        assert(lv[li as int] == cs@.subrange(a as int, b as int));
        proof {
            lemma_flat_counts_step(lv, li as int);
        }
        if range_has_prefix(&cs, a, b, &marker) {
            let parts = split_ranges(&cs, a + 12, b, Sep::Char(';'));
            let ghost pv = range_views(cs@, parts@);
            let ghost base = seen;
            assert(cs@.subrange(a as int, b as int).skip(12) =~= cs@.subrange(a + 12, b as int));
            assert(pv.take(0).map_values(|p: Seq<char>| part_count(p)) =~= Seq::<int>::empty());
            assert(base + Seq::<int>::empty() =~= base);
            for pi in 0..parts.len()
                invariant
                    a + 12 <= b <= cs.len(),
                    passed@ == passed_word(),
                    pv == range_views(cs@, parts@),
                    ranges_within(parts@, a + 12, b as int),
                    seen == base + pv.take(pi as int).map_values(|p: Seq<char>| part_count(p)),
                    fits == sums_fit(seen),
                    fits ==> total == sum(seen),
            {
                let (x, y) = parts[pi];
                assert(parts@[pi as int] == (x, y));
                let v = part_count_range(&cs, x, y, &passed);
                proof {
                    lemma_sums_fit_push(seen, v as int);
                    lemma_sum_push(seen, v as int);
                    assert(pv.take(pi + 1).map_values(|p: Seq<char>| part_count(p)) =~= pv.take(
                        pi as int,
                    ).map_values(|p: Seq<char>| part_count(p)).push(v as int));
                    assert(base + pv.take(pi + 1).map_values(|p: Seq<char>| part_count(p)) =~= (
                    seen).push(v as int));
                }
                if fits {
                    match total.checked_add(v) {
                        Some(t) => {
                            total = t;
                        },
                        None => {
                            fits = false;
                        },
                    }
                }
                proof {
                    seen = seen.push(v as int);
                }
            }
            assert(pv.take(parts.len() as int) =~= pv);
        } else {
            assert(seen + line_counts(lv[li as int]) =~= seen);
        }
    }
    assert(lv.take(lines.len() as int) =~= lv);
    if fits {
        Some(total)
    } else {
        None
    }
}

/// The number of passed tests that `output` reports: the sum of the counts
/// on its `test result:` lines. Every running total must fit in an `i64`.
pub fn parse_test_count(output: &str) -> (n: i64)
    requires
        sums_fit(test_counts(output@)),
    ensures
        n == passed_total(output@),
{
    match try_parse_test_count(output) {
        Some(n) => n,
        None => 0,
    }
}

proof fn lemma_flat_counts_concat(xs: Seq<Seq<char>>, ys: Seq<Seq<char>>)
    ensures
        flat_counts(xs + ys) == flat_counts(xs) + flat_counts(ys),
    decreases ys.len(),
{
    if ys.len() == 0 {
        assert(xs + ys =~= xs);
        assert(flat_counts(xs) + Seq::<int>::empty() =~= flat_counts(xs));
    } else {
        lemma_flat_counts_concat(xs, ys.drop_last());
        assert((xs + ys).drop_last() =~= xs + ys.drop_last());
        assert((xs + ys).last() == ys.last());
        assert(flat_counts(xs) + flat_counts(ys.drop_last()) + line_counts(ys.last())
            =~= flat_counts(xs) + (flat_counts(ys.drop_last()) + line_counts(ys.last())));
    }
}

proof fn lemma_sum_concat(xs: Seq<int>, ys: Seq<int>)
    ensures
        sum(xs + ys) == sum(xs) + sum(ys),
    decreases ys.len(),
{
    if ys.len() == 0 {
        assert(xs + ys =~= xs);
    } else {
        lemma_sum_concat(xs, ys.drop_last());
        assert((xs + ys).drop_last() =~= xs + ys.drop_last());
    }
}

/// The count of two outputs joined by a line feed is the sum of their counts:
/// the total is the sum over the lines.
pub proof fn lemma_passed_total_join(a: Seq<char>, b: Seq<char>)
    ensures
        passed_total(a + seq!['\n'] + b) == passed_total(a) + passed_total(b),
{
    lemma_pieces_join(a, b, '\n');
    lemma_flat_counts_concat(pieces(a, Sep::Char('\n')), pieces(b, Sep::Char('\n')));
    lemma_sum_concat(test_counts(a), test_counts(b));
}

/// Lines that do not start with `test result:` add nothing.
pub proof fn lemma_no_result_lines(output: Seq<char>)
    requires
        forall|i: int|
            0 <= i < pieces(output, Sep::Char('\n')).len() ==> !has_prefix(
                #[trigger] pieces(output, Sep::Char('\n'))[i],
                result_marker(),
            ),
    ensures
        passed_total(output) == 0,
{
    let ls = pieces(output, Sep::Char('\n'));
    lemma_flat_counts_no_results(ls);
}

proof fn lemma_flat_counts_no_results(ls: Seq<Seq<char>>)
    requires
        forall|i: int| 0 <= i < ls.len() ==> !has_prefix(#[trigger] ls[i], result_marker()),
    ensures
        flat_counts(ls) == Seq::<int>::empty(),
    decreases ls.len(),
{
    if ls.len() > 0 {
        assert forall|i: int| 0 <= i < ls.drop_last().len() implies !has_prefix(
            #[trigger] ls.drop_last()[i],
            result_marker(),
        ) by {
            assert(ls.drop_last()[i] == ls[i]);
        }
        lemma_flat_counts_no_results(ls.drop_last());
        assert(!has_prefix(ls[ls.len() - 1], result_marker()));
        assert(Seq::<int>::empty() + Seq::<int>::empty() =~= Seq::<int>::empty());
    }
}

/// A `;`-separated part adds to the count only where its trimmed text ends
/// with `passed`; a part about failed, ignored or measured tests adds nothing.
pub proof fn lemma_only_passed_parts_count(part: Seq<char>)
    ensures
        part_count(part) != 0 ==> has_suffix(trim(part), "passed"@),
        !has_suffix(trim(part), "passed"@) ==> part_count(part) == 0,
{
    reveal_strlit("passed");
    assert("passed"@ =~= passed_word());
}

} // verus!
