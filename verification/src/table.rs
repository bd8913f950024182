//! The process table: the order of its records and the filtered view.

use vstd::prelude::*;

use crate::process::{records, ProcessInfo, ProcessRecord};
use crate::state::SortBy;
use crate::text::{chars_of, contains, lossy_text, lowercase, lowercased, occurs_in, utf8_lossy};

verus! {

/// `a` and `b` hold the same first `k` bytes.
pub open spec fn agree_to(a: Seq<u8>, b: Seq<u8>, k: int) -> bool {
    &&& 0 <= k <= a.len()
    &&& k <= b.len()
    &&& forall|i: int| 0 <= i < k ==> a[i] == b[i]
}

/// Strict lexicographic order on raw bytes: where the two part, `a` has ended
/// or holds the smaller byte.
pub open spec fn bytes_before(a: Seq<u8>, b: Seq<u8>) -> bool {
    exists|k: int| agree_to(a, b, k) && k < b.len() && (k == a.len() || a[k] < b[k])
}

/// Whether `a` stands strictly before `b` in the lexicographic order.
pub fn name_before(a: &Vec<u8>, b: &Vec<u8>) -> (before: bool)
    ensures
        before == bytes_before(a@, b@),
{
    let mut i: usize = 0;
    while i < a.len() && i < b.len()
        invariant
            agree_to(a@, b@, i as int),
        decreases a.len() - i,
    {
        if a[i] != b[i] {
            if a[i] < b[i] {
                assert(agree_to(a@, b@, i as int) && i < b@.len() && a@[i as int] < b@[i as int]);
            }
            return a[i] < b[i];
        }
        i += 1;
    }
    if a.len() < b.len() {
        assert(agree_to(a@, b@, i as int) && i < b@.len() && i == a@.len());
    }
    a.len() < b.len()
}

/// No two byte sequences stand before each other.
pub proof fn lemma_bytes_before_asymmetric(a: Seq<u8>, b: Seq<u8>)
    ensures
        !(bytes_before(a, b) && bytes_before(b, a)),
{
}

/// The place where two byte sequences part: the length of their longest
/// common prefix.
pub proof fn lemma_parting(a: Seq<u8>, b: Seq<u8>, from: int) -> (k: int)
    requires
        agree_to(a, b, from),
    ensures
        agree_to(a, b, k),
        k == a.len() || k == b.len() || a[k] != b[k],
    decreases a.len() - from,
{
    if from == a.len() || from == b.len() || a[from] != b[from] {
        from
    } else {
        lemma_parting(a, b, from + 1)
    }
}

/// Of two different byte sequences one stands before the other.
pub proof fn lemma_bytes_before_total(a: Seq<u8>, b: Seq<u8>)
    ensures
        bytes_before(a, b) || bytes_before(b, a) || a == b,
{
    let k = lemma_parting(a, b, 0);
    if k == a.len() && k == b.len() {
        assert(a =~= b);
    } else if k == a.len() {
        assert(agree_to(a, b, k) && k < b.len() && k == a.len());
    } else if k == b.len() {
        assert(agree_to(b, a, k) && k < a.len() && k == b.len());
    } else if a[k] < b[k] {
        assert(agree_to(a, b, k) && k < b.len() && a[k] < b[k]);
    } else {
        assert(agree_to(b, a, k) && k < a.len() && b[k] < a[k]);
    }
}

/// The lexicographic order is transitive.
pub proof fn lemma_bytes_before_transitive(a: Seq<u8>, b: Seq<u8>, c: Seq<u8>)
    requires
        bytes_before(a, b),
        bytes_before(b, c),
    ensures
        bytes_before(a, c),
{
    let k1 = choose|k: int| agree_to(a, b, k) && k < b.len() && (k == a.len() || a[k] < b[k]);
    let k2 = choose|k: int| agree_to(b, c, k) && k < c.len() && (k == b.len() || b[k] < c[k]);
    let k = if k1 <= k2 { k1 } else { k2 };
    assert(agree_to(a, c, k) && k < c.len() && (k == a.len() || a[k] < c[k]));
}

/// Whether `a` must stand before `b` in a table ordered by `by`: names by
/// their raw bytes, CPU readings as numbers, memory as integers; descending
/// orders are the ascending ones turned round. Two records of which neither
/// must stand before the other are tied. An unavailable CPU reading is tied
/// with every reading.
pub open spec fn comes_before(a: ProcessRecord, b: ProcessRecord, by: SortBy) -> bool {
    match by {
        SortBy::AlphaAsc => bytes_before(a.name, b.name),
        SortBy::AlphaDesc => bytes_before(b.name, a.name),
        SortBy::CpuAsc => a.cpu_usage.below(b.cpu_usage),
        SortBy::CpuDesc => b.cpu_usage.below(a.cpu_usage),
        SortBy::MemAsc => a.memory_usage < b.memory_usage,
        SortBy::MemDesc => b.memory_usage < a.memory_usage,
    }
}

/// Whether `a` must stand before `b` in a table ordered by `by`.
pub fn stands_before(a: &ProcessInfo, b: &ProcessInfo, by: SortBy) -> (before: bool)
    ensures
        before == comes_before(a@, b@, by),
{
    match by {
        SortBy::AlphaAsc => name_before(&a.name, &b.name),
        SortBy::AlphaDesc => name_before(&b.name, &a.name),
        SortBy::CpuAsc => a.cpu_usage.is_below(b.cpu_usage),
        SortBy::CpuDesc => b.cpu_usage.is_below(a.cpu_usage),
        SortBy::MemAsc => a.memory_usage < b.memory_usage,
        SortBy::MemDesc => b.memory_usage < a.memory_usage,
    }
}

/// Whether `by` orders by CPU reading.
pub open spec fn by_cpu(by: SortBy) -> bool {
    by == SortBy::CpuAsc || by == SortBy::CpuDesc
}

/// Whether `by` puts every two records of `table` in order or ties them for
/// good: it does unless it orders by CPU reading and a reading is
/// unavailable.
pub open spec fn comparable(table: Seq<ProcessRecord>, by: SortBy) -> bool {
    by_cpu(by) ==> forall|i: int| 0 <= i < table.len() ==> !(#[trigger] table[i]).cpu_usage.unavailable()
}

/// Every record and its successor are in order or tied.
pub open spec fn neighbours_in_order(table: Seq<ProcessRecord>, by: SortBy) -> bool {
    forall|i: int, j: int|
        0 <= i && j == i + 1 && j < table.len() ==> !comes_before(
            #[trigger] table[j],
            #[trigger] table[i],
            by,
        )
}

/// Every two records are in order or tied.
pub open spec fn in_order(table: Seq<ProcessRecord>, by: SortBy) -> bool {
    forall|i: int, j: int|
        0 <= i < j < table.len() ==> !comes_before(#[trigger] table[j], #[trigger] table[i], by)
}

/// `after` holds the records of `before` in another order: the record at
/// position `i` of `after` stood at position `origin[i]` of `before`, and no
/// position of `before` is used twice.
pub open spec fn rearranges(
    before: Seq<ProcessRecord>,
    after: Seq<ProcessRecord>,
    origin: Seq<int>,
) -> bool {
    &&& after.len() == before.len()
    &&& origin.len() == before.len()
    &&& forall|i: int|
        0 <= i < origin.len() ==> 0 <= #[trigger] origin[i] < before.len() && after[i]
            == before[origin[i]]
    &&& forall|i: int, j: int|
        0 <= i < j < origin.len() ==> #[trigger] origin[i] != #[trigger] origin[j]
}

/// No two records have changed places without need: where two records stand
/// the other way round than they did, the one now in front must stand before
/// the other. Tied records therefore keep the order they had.
pub open spec fn moves_only_where_needed(
    after: Seq<ProcessRecord>,
    origin: Seq<int>,
    by: SortBy,
) -> bool {
    forall|i: int, j: int|
        0 <= i < j < after.len() && #[trigger] origin[i] > #[trigger] origin[j] ==> comes_before(
            after[i],
            after[j],
            by,
        )
}

/// `after` is `before` sorted by `by`, stably: the same records, each next
/// to neighbours it is in order with, and none moved past another without
/// need. Where `by` can compare all records, the whole table is in order,
/// and `after` is the one stable sort of `before`.
pub open spec fn sorted_from(
    before: Seq<ProcessRecord>,
    after: Seq<ProcessRecord>,
    by: SortBy,
) -> bool {
    &&& exists|origin: Seq<int>|
        rearranges(before, after, origin) && moves_only_where_needed(after, origin, by)
    &&& neighbours_in_order(after, by)
    &&& comparable(before, by) ==> in_order(after, by)
}

/// No two records must stand before each other.
pub proof fn lemma_comes_before_asymmetric(a: ProcessRecord, b: ProcessRecord, by: SortBy)
    ensures
        !(comes_before(a, b, by) && comes_before(b, a, by)),
{
    lemma_bytes_before_asymmetric(a.name, b.name);
}

/// Among records that `by` can compare, being in order or tied is
/// transitive.
pub proof fn lemma_in_order_transitive(
    a: ProcessRecord,
    b: ProcessRecord,
    c: ProcessRecord,
    by: SortBy,
)
    requires
        by_cpu(by) ==> !a.cpu_usage.unavailable() && !b.cpu_usage.unavailable()
            && !c.cpu_usage.unavailable(),
        !comes_before(b, a, by),
        !comes_before(c, b, by),
    ensures
        !comes_before(c, a, by),
{
    match by {
        SortBy::AlphaAsc => {
            lemma_bytes_before_total(a.name, b.name);
            if bytes_before(c.name, a.name) && bytes_before(a.name, b.name) {
                lemma_bytes_before_transitive(c.name, a.name, b.name);
            }
        },
        SortBy::AlphaDesc => {
            lemma_bytes_before_total(a.name, b.name);
            if bytes_before(b.name, a.name) && bytes_before(a.name, c.name) {
                lemma_bytes_before_transitive(b.name, a.name, c.name);
            }
        },
        _ => {},
    }
}

/// A table that `by` can compare and whose neighbours are in order is in
/// order as a whole.
pub proof fn lemma_neighbours_suffice(table: Seq<ProcessRecord>, by: SortBy)
    requires
        comparable(table, by),
        neighbours_in_order(table, by),
    ensures
        in_order(table, by),
{
    assert forall|i: int, j: int| 0 <= i < j < table.len() implies !comes_before(
        #[trigger] table[j],
        #[trigger] table[i],
        by,
    ) by {
        lemma_reaches(table, by, i, j);
    }
}

proof fn lemma_reaches(table: Seq<ProcessRecord>, by: SortBy, i: int, j: int)
    requires
        comparable(table, by),
        neighbours_in_order(table, by),
        0 <= i < j < table.len(),
    ensures
        !comes_before(table[j], table[i], by),
    decreases j - i,
{
    if j > i + 1 {
        lemma_reaches(table, by, i, j - 1);
        assert(!comes_before(table[j], table[j - 1], by));
        lemma_in_order_transitive(table[i], table[j - 1], table[j], by);
    }
}

/// Where the record at position `k` stood before the record at `from` was
/// taken out and put back at `to`.
pub open spec fn stood_at(k: int, from: int, to: int) -> int {
    if k < to {
        k
    } else if k == to {
        from
    } else if k <= from {
        k - 1
    } else {
        k
    }
}

/// Taking the record at `from` out of a table whose first `from` records are
/// neighbour by neighbour in order, and putting it back at `to`, just behind
/// the last of them that it need not stand before, keeps the table a
/// rearrangement in which nothing moved without need, and leaves the first
/// `from + 1` records in order neighbour by neighbour.
proof fn lemma_move(
    before: Seq<ProcessRecord>,
    table: Seq<ProcessRecord>,
    origin: Seq<int>,
    by: SortBy,
    from: int,
    to: int,
)
    requires
        rearranges(before, table, origin),
        moves_only_where_needed(table, origin, by),
        0 <= to <= from < table.len(),
        neighbours_in_order(table.take(from), by),
        forall|k: int| to <= k < from ==> comes_before(table[from], #[trigger] table[k], by),
        to > 0 ==> !comes_before(table[from], table[to - 1], by),
    ensures
        rearranges(
            before,
            table.remove(from).insert(to, table[from]),
            origin.remove(from).insert(to, origin[from]),
        ),
        moves_only_where_needed(
            table.remove(from).insert(to, table[from]),
            origin.remove(from).insert(to, origin[from]),
            by,
        ),
        neighbours_in_order(table.remove(from).insert(to, table[from]).take(from + 1), by),
{
    let moved = table.remove(from).insert(to, table[from]);
    let traced = origin.remove(from).insert(to, origin[from]);
    assert forall|k: int| 0 <= k < moved.len() implies #[trigger] moved[k] == table[stood_at(
        k,
        from,
        to,
    )] && traced[k] == origin[stood_at(k, from, to)] by {}
    assert forall|i: int| 0 <= i < traced.len() implies 0 <= #[trigger] traced[i] < before.len()
        && moved[i] == before[traced[i]] by {
        let k = stood_at(i, from, to);
        assert(origin[k] == traced[i]);
    }
    assert forall|i: int, j: int| 0 <= i < j < traced.len() implies #[trigger] traced[i]
        != #[trigger] traced[j] by {
        let a = stood_at(i, from, to);
        let b = stood_at(j, from, to);
        assert(a != b);
        if a < b {
            assert(origin[a] != origin[b]);
        } else {
            assert(origin[b] != origin[a]);
        }
    }
    assert forall|i: int, j: int|
        0 <= i < j < moved.len() && #[trigger] traced[i] > #[trigger] traced[j] implies comes_before(
        moved[i],
        moved[j],
        by,
    ) by {
        let a = stood_at(i, from, to);
        let b = stood_at(j, from, to);
        if i == to {
            if j <= from {
                assert(comes_before(table[from], table[b], by));
            } else {
                assert(origin[a] > origin[b]);
            }
        } else {
            assert(a < b);
            assert(origin[a] > origin[b]);
        }
    }
    let front = moved.take(from + 1);
    let sorted = table.take(from);
    assert forall|i: int, j: int| 0 <= i && j == i + 1 && j < front.len() implies !comes_before(
        #[trigger] front[j],
        #[trigger] front[i],
        by,
    ) by {
        if j < to {
            assert(sorted[i] == table[i] && sorted[j] == table[j]);
        } else if j == to {
            assert(front[j] == table[from] && front[i] == table[to - 1]);
        } else if i == to {
            assert(front[j] == table[to]);
            lemma_comes_before_asymmetric(table[from], table[to], by);
        } else {
            assert(sorted[i - 1] == table[i - 1] && sorted[j - 1] == table[j - 1]);
            assert(front[i] == table[i - 1] && front[j] == table[j - 1]);
        }
    }
}

/// Sorts the table by `by`, stably, by insertion: each record in turn is
/// moved forward past the records that it must stand before.
pub fn sort_table(table: &mut Vec<ProcessInfo>, by: SortBy)
    ensures
        sorted_from(records(old(table)@), records(final(table)@), by),
{
    let ghost before = records(table@);
    let ghost mut origin: Seq<int> = Seq::new(table.len() as nat, |i: int| i);
    let mut next: usize = 0;
    while next < table.len()
        invariant
            next <= table.len(),
            rearranges(before, records(table@), origin),
            moves_only_where_needed(records(table@), origin, by),
            neighbours_in_order(records(table@).take(next as int), by),
        decreases table.len() - next,
    {
        let mut place: usize = next;
        while place > 0 && stands_before(&table[next], &table[place - 1], by)
            invariant
                place <= next < table.len(),
                forall|k: int|
                    place <= k < next ==> comes_before(
                        records(table@)[next as int],
                        #[trigger] records(table@)[k],
                        by,
                    ),
            decreases place,
        {
            place -= 1;
        }
        proof {
            lemma_move(before, records(table@), origin, by, next as int, place as int);
        }
        let ghost earlier = records(table@);
        let ghost traced = origin;
        if place < next {
            let moved = table.remove(next);
            table.insert(place, moved);
        }
        proof {
            origin = traced.remove(next as int).insert(place as int, traced[next as int]);
            if place == next {
                assert(origin =~= traced);
            }
            assert(records(table@) =~= earlier.remove(next as int).insert(
                place as int,
                earlier[next as int],
            ));
        }
        next += 1;
    }
    proof {
        assert(records(table@).take(next as int) =~= records(table@));
        if comparable(before, by) {
            assert forall|i: int| 0 <= i < table@.len() implies !(#[trigger] records(
                table@,
            )[i]).cpu_usage.unavailable() || !by_cpu(by) by {
                assert(records(table@)[i] == before[origin[i]]);
            }
            lemma_neighbours_suffice(records(table@), by);
        }
    }
}

/// Whether a process of this name passes the filter: the filter is empty, or
/// the lower-cased filter is a contiguous part of the lower-cased name, the
/// name decoded as for display.
pub open spec fn passes(name: Seq<u8>, filter: Seq<char>) -> bool {
    filter.len() == 0 || occurs_in(lowercase(filter), lowercase(utf8_lossy(name)))
}

/// The records of `table` that pass the filter, in table order.
pub open spec fn filtered(table: Seq<ProcessRecord>, filter: Seq<char>) -> Seq<ProcessRecord> {
    table.filter(|r: ProcessRecord| passes(r.name, filter))
}

/// The lower-cased display form of a name, by which it is searched.
pub fn search_key(name: &Vec<u8>) -> (key: Vec<char>)
    ensures
        key@ == lowercase(utf8_lossy(name@)),
{
    let shown = lossy_text(name);
    let lower = lowercased(shown.as_str());
    chars_of(lower.as_str())
}

/// The processes of `table` that pass the filter, in table order. The table
/// itself is left as it is.
pub fn filter_table<'a>(table: &'a Vec<ProcessInfo>, filter: &str) -> (shown: Vec<&'a ProcessInfo>)
    ensures
        shown.deep_view() == filtered(records(table@), filter@),
{
    let unfiltered = filter.is_empty();
    let lower = lowercased(filter);
    let needle = chars_of(lower.as_str());
    let ghost pred = |r: ProcessRecord| passes(r.name, filter@);
    let mut shown: Vec<&'a ProcessInfo> = Vec::new();
    let mut i: usize = 0;
    proof {
        reveal(Seq::filter);
        assert(records(table@).take(0).filter(pred) =~= shown.deep_view());
    }
    while i < table.len()
        invariant
            i <= table.len(),
            unfiltered == (filter@.len() == 0),
            needle@ == lowercase(filter@),
            pred == |r: ProcessRecord| passes(r.name, filter@),
            shown.deep_view() == records(table@).take(i as int).filter(pred),
        decreases table.len() - i,
    {
        let process = &table[i];
        let ghost sofar = shown.deep_view();
        let keep = unfiltered || contains(&search_key(&process.name), &needle);
        proof {
            reveal(Seq::filter);
            let front = records(table@).take(i + 1);
            assert(front.drop_last() =~= records(table@).take(i as int));
            assert(front.last() == process@);
            assert(keep == pred(process@));
        }
        if keep {
            shown.push(process);
            assert(shown.deep_view() =~= sofar.push(process@));
        }
        i += 1;
    }
    assert(records(table@).take(i as int) =~= records(table@));
    shown
}

} // verus!
