//! Ranges in the order of the lines on which they start.
use crate::lsp::Range;
use vstd::prelude::*;

verus! {

/// The ranges of `ranges` that start on `line`, in their order.
pub open spec fn on_line(ranges: Seq<Range>, line: u32) -> Seq<Range> {
    ranges.filter(|range: Range| range.start.line == line)
}

/// No range starts on a later line than one that comes after it.
pub open spec fn lines_ascend(ranges: Seq<Range>) -> bool {
    forall|i: int, j: int|
        0 <= i <= j < ranges.len() ==> (#[trigger] ranges[i]).start.line <= (
        #[trigger] ranges[j]).start.line
}

/// `sorted` holds the ranges of `ranges` by the lines on which they start; those that start on the
/// same line keep their order.
pub open spec fn sorted_by_line(ranges: Seq<Range>, sorted: Seq<Range>) -> bool {
    &&& lines_ascend(sorted)
    &&& forall|line: u32| #[trigger] on_line(sorted, line) == on_line(ranges, line)
}

/// What starts on a line of `a + b` starts on it in `a`, or after that in `b`.
proof fn lemma_on_line_add(a: Seq<Range>, b: Seq<Range>, line: u32)
    ensures
        on_line(a + b, line) == on_line(a, line) + on_line(b, line),
{
    Seq::filter_distributes_over_add(a, b, |range: Range| range.start.line == line);
}

/// One range starts on its own line and on no other.
proof fn lemma_on_line_one(range: Range, line: u32)
    ensures
        on_line(seq![range], line) == (if range.start.line == line {
            seq![range]
        } else {
            seq![]
        }),
{
    let s = seq![range];
    reveal_with_fuel(Seq::filter, 2);
    assert(s.drop_last() =~= Seq::<Range>::empty());
    assert(on_line(s, line) =~= if range.start.line == line {
        seq![range]
    } else {
        seq![]
    });
}

/// Where no range starts on `line`, nothing is found on it.
proof fn lemma_on_line_none(ranges: Seq<Range>, line: u32)
    requires
        forall|i: int| 0 <= i < ranges.len() ==> (#[trigger] ranges[i]).start.line != line,
    ensures
        on_line(ranges, line) == Seq::<Range>::empty(),
{
    let p = |range: Range| range.start.line == line;
    assert forall|x: Range| #[trigger] ranges.contains(x) implies !p(x) by {
        let i = choose|i: int| 0 <= i < ranges.len() && ranges[i] == x;
        assert(ranges[i].start.line != line);
    }
    ranges.lemma_all_neg_filter_empty(p);
    assert(on_line(ranges, line) =~= Seq::<Range>::empty());
}

/// A range that comes after all that start no later, and before all that start later, is the last
/// one on its line.
proof fn lemma_insert(sorted: Seq<Range>, k: int, range: Range, line: u32)
    requires
        0 <= k <= sorted.len(),
        forall|i: int|
            k <= i < sorted.len() ==> (#[trigger] sorted[i]).start.line > range.start.line,
    ensures
        on_line(sorted.insert(k, range), line) == on_line(sorted, line) + on_line(
            seq![range],
            line,
        ),
{
    let before = sorted.take(k);
    let after = sorted.skip(k);
    assert(sorted =~= before + after);
    assert(sorted.insert(k, range) =~= before + seq![range] + after);
    lemma_on_line_add(before, after, line);
    lemma_on_line_add(before + seq![range], after, line);
    lemma_on_line_add(before, seq![range], line);
    lemma_on_line_one(range, line);
    if line == range.start.line {
        assert forall|i: int| 0 <= i < after.len() implies (#[trigger] after[i]).start.line
            != line by {
            assert(after[i] == sorted[k + i]);
        }
        lemma_on_line_none(after, line);
    }
    assert(on_line(sorted.insert(k, range), line) =~= on_line(sorted, line) + on_line(
        seq![range],
        line,
    ));
}

/// The ranges by the lines on which they start; those that start on the same line keep their
/// order.
pub fn sort_by_line(ranges: &Vec<Range>) -> (sorted: Vec<Range>)
    ensures
        sorted_by_line(ranges@, sorted@),
{
    let mut sorted: Vec<Range> = Vec::new();
    assert(ranges@.take(0) =~= sorted@);
    for i in 0..ranges.len()
        invariant
            sorted_by_line(ranges@.take(i as int), sorted@),
    {
        let range: Range = ranges[i];
        let mut k: usize = sorted.len();
        while k > 0 && sorted[k - 1].start.line > range.start.line
            invariant
                k <= sorted@.len(),
                forall|j: int|
                    k <= j < sorted@.len() ==> (#[trigger] sorted@[j]).start.line
                        > range.start.line,
            decreases k,
        {
            k = k - 1;
        }
        let ghost before = sorted@;
        sorted.insert(k, range);
        proof {
            let n = i as int;
            assert(ranges@.take(n + 1) =~= ranges@.take(n) + seq![range]);
            assert forall|line: u32| #[trigger] on_line(sorted@, line) == on_line(
                ranges@.take(n + 1),
                line,
            ) by {
                lemma_insert(before, k as int, range, line);
                lemma_on_line_add(ranges@.take(n), seq![range], line);
                assert(on_line(before, line) == on_line(ranges@.take(n), line));
            }
            assert forall|a: int, b: int| 0 <= a <= b < sorted@.len() implies (
            #[trigger] sorted@[a]).start.line <= (#[trigger] sorted@[b]).start.line by {
                let a0 = if a > k { a - 1 } else { a };
                let b0 = if b > k { b - 1 } else { b };
                if a != k {
                    assert(sorted@[a] == before[a0]);
                }
                if b != k {
                    assert(sorted@[b] == before[b0]);
                }
                if a < k && b == k {
                    assert(before[a0].start.line <= before[k - 1].start.line);
                }
            }
        }
    }
    assert(ranges@.take(ranges@.len() as int) =~= ranges@);
    sorted
}

/// How often a range occurs is how often it occurs on its line.
proof fn lemma_count_on_line(ranges: Seq<Range>, range: Range)
    ensures
        ranges.to_multiset().count(range) == on_line(
            ranges,
            range.start.line,
        ).to_multiset().count(range),
    decreases ranges.len(),
{
    broadcast use vstd::seq_lib::group_to_multiset_ensures;

    reveal(Seq::filter);
    let line = range.start.line;
    if ranges.len() > 0 {
        lemma_count_on_line(ranges.drop_last(), range);
        assert(ranges =~= ranges.drop_last().push(ranges.last()));
    }
}

/// Sorting by line neither drops, adds nor repeats a range.
pub proof fn law_sorting_keeps_the_ranges(ranges: Seq<Range>, sorted: Seq<Range>)
    requires
        sorted_by_line(ranges, sorted),
    ensures
        sorted.to_multiset() == ranges.to_multiset(),
        sorted.len() == ranges.len(),
{
    broadcast use vstd::seq_lib::group_to_multiset_ensures;

    assert forall|range: Range| #[trigger]
        sorted.to_multiset().count(range) == ranges.to_multiset().count(range) by {
        lemma_count_on_line(ranges, range);
        lemma_count_on_line(sorted, range);
        assert(on_line(sorted, range.start.line) == on_line(ranges, range.start.line));
    }
    assert(sorted.to_multiset() =~= ranges.to_multiset());
    assert(sorted.to_multiset().len() == sorted.len());
    assert(ranges.to_multiset().len() == ranges.len());
}

/// There is one way only to sort ranges by line.
pub proof fn law_sorting_is_unique(ranges: Seq<Range>, a: Seq<Range>, b: Seq<Range>)
    requires
        sorted_by_line(ranges, a),
        sorted_by_line(ranges, b),
    ensures
        a == b,
    decreases ranges.len(),
{
    law_sorting_keeps_the_ranges(ranges, a);
    law_sorting_keeps_the_ranges(ranges, b);
    assert forall|line: u32| #[trigger] on_line(a, line) == on_line(b, line) by {
        assert(on_line(a, line) == on_line(ranges, line));
        assert(on_line(b, line) == on_line(ranges, line));
    }
    lemma_unique(a, b);
}

/// Two sequences that ascend and agree on every line are the same.
proof fn lemma_unique(a: Seq<Range>, b: Seq<Range>)
    requires
        lines_ascend(a),
        lines_ascend(b),
        a.len() == b.len(),
        forall|line: u32| #[trigger] on_line(a, line) == on_line(b, line),
    ensures
        a == b,
    decreases a.len(),
{
    reveal(Seq::filter);
    if a.len() == 0 {
        assert(a =~= b);
    } else {
        let x = a.last();
        let y = b.last();
        if x.start.line > y.start.line {
            assert forall|i: int| 0 <= i < b.len() implies (#[trigger] b[i]).start.line
                != x.start.line by {
                assert(b[i].start.line <= b[b.len() - 1].start.line);
            }
            lemma_on_line_none(b, x.start.line);
            assert(on_line(a, x.start.line).last() == x);
            assert(on_line(a, x.start.line).len() > 0);
            assert(false);
        }
        if y.start.line > x.start.line {
            assert forall|i: int| 0 <= i < a.len() implies (#[trigger] a[i]).start.line
                != y.start.line by {
                assert(a[i].start.line <= a[a.len() - 1].start.line);
            }
            lemma_on_line_none(a, y.start.line);
            assert(on_line(b, y.start.line).len() > 0);
            assert(false);
        }
        assert(on_line(a, x.start.line).last() == x);
        assert(on_line(b, x.start.line).last() == y);
        assert(x == y);
        let a0 = a.drop_last();
        let b0 = b.drop_last();
        assert forall|line: u32| #[trigger] on_line(a0, line) == on_line(b0, line) by {
            assert(on_line(a, line) == on_line(b, line));
            if x.start.line == line {
                assert(on_line(a, line).drop_last() =~= on_line(a0, line));
                assert(on_line(b, line).drop_last() =~= on_line(b0, line));
            }
        }
        lemma_unique(a0, b0);
        assert(a =~= a0.push(x));
        assert(b =~= b0.push(y));
    }
}

/// What is sorted holds each range as often as it was there, in ascending order of the lines on
/// which the ranges start, and on each `line` in the order in which they were.
pub proof fn law_sorted_ranges(ranges: Seq<Range>, sorted: Seq<Range>, line: u32)
    requires
        sorted_by_line(ranges, sorted),
    ensures
        sorted.len() == ranges.len(),
        sorted.to_multiset() == ranges.to_multiset(),
        forall|i: int, j: int|
            0 <= i <= j < sorted.len() ==> (#[trigger] sorted[i]).start.line <= (
            #[trigger] sorted[j]).start.line,
        sorted.filter(|range: Range| range.start.line == line) == ranges.filter(
            |range: Range| range.start.line == line,
        ),
{
    law_sorting_keeps_the_ranges(ranges, sorted);
    assert(on_line(sorted, line) == on_line(ranges, line));
}

} // verus!
