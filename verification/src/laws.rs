//! What holds of the controller whatever it is given: theorems over the
//! step relation and the specifications of the table.

use vstd::prelude::*;

use crate::process::{records, Pid, ProcessRecord};
use crate::state::{
    first_with_pid, kill_target, newest, ring_after_push, step, Command, Message, MonitorState,
    SortBy, ToastType, LOG_CAPACITY, TOAST_SECONDS,
};
use crate::table::{
    bytes_before, comes_before, comparable, filtered, in_order, moves_only_where_needed,
    neighbours_in_order, passes, rearranges, sorted_from,
};

verus! {

/// A record is in the filtered view exactly if it is in the table and
/// passes the filter. For a filter that is not empty, it passes exactly if
/// its lower-cased name contains the lower-cased filter.
pub proof fn law_filter_membership(
    table: Seq<ProcessRecord>,
    filter: Seq<char>,
    record: ProcessRecord,
)
    ensures
        filtered(table, filter).contains(record) <==> table.contains(record) && passes(
            record.name,
            filter,
        ),
{
    let pred = |r: ProcessRecord| passes(r.name, filter);
    if filtered(table, filter).contains(record) {
        table.lemma_filter_contains_rev(pred, record);
        let i = choose|i: int| 0 <= i < table.filter(pred).len() && table.filter(pred)[i] == record;
        table.lemma_filter_pred(pred, i);
    }
    if table.contains(record) && passes(record.name, filter) {
        let i = choose|i: int| 0 <= i < table.len() && table[i] == record;
        table.lemma_filter_contains(pred, i);
    }
}

/// With the empty filter the view is the whole table, in table order.
pub proof fn law_empty_filter_shows_all(table: Seq<ProcessRecord>)
    ensures
        filtered(table, Seq::empty()) == table,
    decreases table.len(),
{
    reveal(Seq::filter);
    if table.len() > 0 {
        law_empty_filter_shows_all(table.drop_last());
        assert(table.drop_last().push(table.last()) =~= table);
    }
}

/// Whether a message asks for a sort dimension.
pub open spec fn asks_for_sort(message: Message) -> bool {
    message is SortAlpha || message is SortCpu || message is SortMem
}

/// After a sort message the table is in the order of the new sort key,
/// provided that the key can compare its records. In particular the first
/// record is then not behind the last: under `CpuDesc` its reading is at
/// least the last one's, under `MemDesc` its memory is at least the last
/// one's, under `MemAsc` at most; and under `AlphaAsc` no name stands
/// before an earlier one.
pub proof fn law_sort_orders_table(
    pre: MonitorState,
    message: Message,
    post: MonitorState,
    command: Command,
)
    requires
        step(pre, message, post, command),
        asks_for_sort(message),
        comparable(pre.processes, post.sort),
    ensures
        in_order(post.processes, post.sort),
        post.processes.len() > 0 ==> !comes_before(
            post.processes.last(),
            post.processes[0],
            post.sort,
        ),
        post.processes.len() > 0 && post.sort == SortBy::CpuDesc
            ==> post.processes[0].cpu_usage.rank() >= post.processes.last().cpu_usage.rank(),
        post.processes.len() > 0 && post.sort == SortBy::MemDesc ==> post.processes[0].memory_usage
            >= post.processes.last().memory_usage,
        post.processes.len() > 0 && post.sort == SortBy::MemAsc ==> post.processes[0].memory_usage
            <= post.processes.last().memory_usage,
        post.sort == SortBy::AlphaAsc ==> forall|i: int, j: int|
            0 <= i < j < post.processes.len() ==> !bytes_before(
                #[trigger] post.processes[j].name,
                #[trigger] post.processes[i].name,
            ),
{
    let table = post.processes;
    if table.len() > 1 {
        assert(!comes_before(table[table.len() - 1], table[0], post.sort));
    }
    if table.len() > 0 && post.sort == SortBy::CpuDesc {
        let origin = choose|origin: Seq<int>| rearranges(pre.processes, table, origin);
        assert(table[0] == pre.processes[origin[0]]);
        assert(table[table.len() - 1] == pre.processes[origin[table.len() - 1]]);
    }
    if post.sort == SortBy::AlphaAsc {
        assert forall|i: int, j: int| 0 <= i < j < table.len() implies !bytes_before(
            #[trigger] table[j].name,
            #[trigger] table[i].name,
        ) by {
            assert(!comes_before(table[j], table[i], post.sort));
        }
    }
}

/// The dimension of a sort key, as its ascending direction.
pub open spec fn ascending_of(sort: SortBy) -> SortBy {
    match sort {
        SortBy::AlphaAsc | SortBy::AlphaDesc => SortBy::AlphaAsc,
        SortBy::CpuAsc | SortBy::CpuDesc => SortBy::CpuAsc,
        SortBy::MemAsc | SortBy::MemDesc => SortBy::MemAsc,
    }
}

/// The same dimension in the other direction.
pub open spec fn turned(sort: SortBy) -> SortBy {
    match sort {
        SortBy::AlphaAsc => SortBy::AlphaDesc,
        SortBy::AlphaDesc => SortBy::AlphaAsc,
        SortBy::CpuAsc => SortBy::CpuDesc,
        SortBy::CpuDesc => SortBy::CpuAsc,
        SortBy::MemAsc => SortBy::MemDesc,
        SortBy::MemDesc => SortBy::MemAsc,
    }
}

/// The ascending sort key of the dimension that a sort message asks for.
pub open spec fn asked_dimension(message: Message) -> SortBy {
    match message {
        Message::SortAlpha => SortBy::AlphaAsc,
        Message::SortCpu => SortBy::CpuAsc,
        _ => SortBy::MemAsc,
    }
}

/// Asking for the dimension that the table is sorted by turns the direction
/// round; asking for another dimension sorts by that one, ascending. So the
/// same sort message twice in a row flips the direction.
pub proof fn law_sort_toggles(
    first: MonitorState,
    message: Message,
    second: MonitorState,
    command: Command,
    again: Message,
    third: MonitorState,
    then: Command,
)
    requires
        asks_for_sort(message),
        asks_for_sort(again),
        step(first, message, second, command),
        step(second, again, third, then),
    ensures
        ascending_of(first.sort) != asked_dimension(message) ==> second.sort == asked_dimension(
            message,
        ),
        ascending_of(first.sort) == asked_dimension(message) ==> second.sort == turned(first.sort),
        asked_dimension(again) == asked_dimension(message) ==> third.sort == turned(second.sort),
        asked_dimension(again) != asked_dimension(message) ==> third.sort == asked_dimension(again),
{
}

/// Looking a record up by identifier finds a record of the table with that
/// identifier, and finds none only if the table has none.
pub proof fn law_lookup(table: Seq<ProcessRecord>, pid: Pid)
    ensures
        match first_with_pid(table, pid) {
            Some(found) => found.pid == pid && table.contains(found),
            None => forall|i: int| 0 <= i < table.len() ==> (#[trigger] table[i]).pid != pid,
        },
    decreases table.len(),
{
    if table.len() > 0 {
        if table[0].pid == pid {
            assert(table.contains(table[0]));
        } else {
            let rest = table.drop_first();
            law_lookup(rest, pid);
            match first_with_pid(rest, pid) {
                Some(found) => {
                    let i = choose|i: int| 0 <= i < rest.len() && rest[i] == found;
                    assert(table[i + 1] == found);
                },
                None => {
                    assert forall|i: int| 0 <= i < table.len() implies (#[trigger] table[i]).pid
                        != pid by {
                        if i > 0 {
                            assert(rest[i - 1] == table[i]);
                        }
                    }
                },
            }
        }
    }
}

/// A rearranged table holds a record exactly if the table it came from
/// holds it.
pub proof fn law_rearrangement_keeps_records(
    before: Seq<ProcessRecord>,
    after: Seq<ProcessRecord>,
    origin: Seq<int>,
    record: ProcessRecord,
)
    requires
        rearranges(before, after, origin),
    ensures
        after.contains(record) <==> before.contains(record),
{
    if after.contains(record) {
        let i = choose|i: int| 0 <= i < after.len() && after[i] == record;
        assert(before[origin[i]] == record);
    }
    if before.contains(record) {
        let k = choose|k: int| 0 <= k < before.len() && before[k] == record;
        lemma_every_place_is_used(origin, k);
        let i = choose|i: int| 0 <= i < origin.len() && origin[i] == k;
        assert(after[i] == record);
    }
}

/// A list of `n` different places below `n` uses every place below `n`.
pub proof fn lemma_every_place_is_used(origin: Seq<int>, place: int)
    requires
        forall|i: int| 0 <= i < origin.len() ==> 0 <= #[trigger] origin[i] < origin.len(),
        forall|i: int, j: int|
            0 <= i < j < origin.len() ==> #[trigger] origin[i] != #[trigger] origin[j],
        0 <= place < origin.len(),
    ensures
        exists|i: int| 0 <= i < origin.len() && origin[i] == place,
{
    let n = origin.len() as int;
    let used = origin.to_set();
    let all = Set::new(|k: int| 0 <= k < n);
    assert(origin.no_duplicates());
    origin.unique_seq_to_set();
    vstd::set_lib::lemma_int_range(0, n);
    assert(all =~= vstd::set_lib::set_int_range(0, n));
    assert(used.subset_of(all)) by {
        assert forall|k: int| used.contains(k) implies all.contains(k) by {
            let i = choose|i: int| 0 <= i < origin.len() && origin[i] == k;
        }
    }
    vstd::set_lib::lemma_subset_equality(used, all);
    assert(all.contains(place));
    assert(used.contains(place));
}

/// A refresh reconciles the selection by identifier. If a process was
/// selected and the snapshot holds a record with its identifier, the
/// selection becomes such a record of the new table; if the snapshot holds
/// none, nothing is selected. If nothing was selected, nothing is.
pub proof fn law_refresh_reconciles(
    pre: MonitorState,
    message: Message,
    post: MonitorState,
    command: Command,
)
    requires
        message is RefreshTick,
        step(pre, message, post, command),
    ensures
        pre.selected is None ==> post.selected is None,
        pre.selected is Some ==> match post.selected {
            Some(fresh) => fresh.pid == pre.selected->0.pid && post.processes.contains(fresh)
                && records(message->RefreshTick_0@).contains(fresh),
            None => forall|i: int|
                0 <= i < post.processes.len() ==> (#[trigger] post.processes[i]).pid
                    != pre.selected->0.pid,
        },
{
    let snapshot = records(message->RefreshTick_0@);
    if pre.selected is Some {
        let pid = pre.selected->0.pid;
        law_lookup(snapshot, pid);
        let origin = choose|origin: Seq<int>| rearranges(snapshot, post.processes, origin);
        match post.selected {
            Some(fresh) => {
                law_rearrangement_keeps_records(snapshot, post.processes, origin, fresh);
            },
            None => {
                assert forall|i: int| 0 <= i < post.processes.len() implies (
                #[trigger] post.processes[i]).pid != pid by {
                    assert(post.processes[i] == snapshot[origin[i]]);
                }
            },
        }
    }
}

/// Asking for a kill with nothing selected changes nothing; with a process
/// selected it makes the kill wait for confirmation and changes nothing
/// else.
pub proof fn law_kill_request(pre: MonitorState, post: MonitorState, command: Command)
    requires
        step(pre, Message::RequestKill, post, command),
    ensures
        command is Nothing,
        pre.selected is None ==> post == pre,
        pre.selected is Some ==> post == (MonitorState { kill_confirm: true, ..pre }),
{
}

/// Whether a toast of this kind is up.
pub open spec fn shows(state: MonitorState, kind: ToastType) -> bool {
    match state.toast {
        Some((_, shown)) => shown == kind,
        None => false,
    }
}

/// Confirming a kill always ends the confirmation and clears the selection.
/// It asks the host to end the parent of the selected process; if there is
/// no such parent, it reports the failure at once in a toast.
pub proof fn law_kill_confirm(pre: MonitorState, post: MonitorState, command: Command)
    requires
        step(pre, Message::ConfirmKill, post, command),
    ensures
        post.selected is None,
        !post.kill_confirm,
        match kill_target(pre) {
            Some(parent) => command is KillProcess && command->KillProcess_0 == parent
                && post.toast == pre.toast,
            None => command == Command::HideToastAfter(TOAST_SECONDS) && shows(
                post,
                ToastType::Error,
            ),
        },
{
}

/// Whatever the host reports of the kill that a confirmation asked for,
/// the report becomes the one toast, a success or an error as reported,
/// the toast is asked to hide, and selection and confirmation stay cleared.
pub proof fn law_kill_outcome(
    pre: MonitorState,
    confirmed: MonitorState,
    command: Command,
    outcome: Message,
    post: MonitorState,
    then: Command,
)
    requires
        step(pre, Message::ConfirmKill, confirmed, command),
        command is KillProcess,
        outcome is KillFinished,
        step(confirmed, outcome, post, then),
    ensures
        post.selected is None,
        !post.kill_confirm,
        shows(
            post,
            if outcome->KillFinished_0 {
                ToastType::Success
            } else {
                ToastType::Error
            },
        ),
        then == Command::HideToastAfter(TOAST_SECONDS),
{
}

/// Cancelling a kill ends the confirmation and changes nothing else.
pub proof fn law_kill_cancel(pre: MonitorState, post: MonitorState, command: Command)
    requires
        step(pre, Message::CancelKill, post, command),
    ensures
        post == (MonitorState { kill_confirm: false, ..pre }),
        command is Nothing,
{
}

/// A ring within its capacity stays within it when a line is pushed. The
/// pushed line is its newest line; the oldest line leaves exactly if the
/// ring was full.
pub proof fn law_ring_bound(ring: Seq<Seq<char>>, line: Seq<char>, capacity: int)
    requires
        capacity >= 1,
        ring.len() <= capacity,
    ensures
        ring_after_push(ring, line, capacity).len() <= capacity,
        ring_after_push(ring, line, capacity).last() == line,
        ring.len() < capacity ==> ring_after_push(ring, line, capacity) == ring.push(line),
        ring.len() == capacity ==> ring_after_push(ring, line, capacity) == ring.drop_first().push(
            line,
        ),
{
    if ring.len() == capacity {
        assert(ring.push(line).drop_first() =~= ring.drop_first().push(line));
    }
}

/// The ring after these lines were pushed one by one.
pub open spec fn ring_after_all(ring: Seq<Seq<char>>, lines: Seq<Seq<char>>, capacity: int) -> Seq<
    Seq<char>,
>
    decreases lines.len(),
{
    if lines.len() == 0 {
        ring
    } else {
        ring_after_push(ring_after_all(ring, lines.drop_last(), capacity), lines.last(), capacity)
    }
}

/// Pushing lines one by one into an empty ring leaves the newest of them,
/// as many as the ring holds.
pub proof fn law_ring_keeps_newest(lines: Seq<Seq<char>>, capacity: int)
    requires
        capacity >= 1,
    ensures
        ring_after_all(Seq::empty(), lines, capacity) == newest(lines, capacity),
    decreases lines.len(),
{
    if lines.len() > 0 {
        law_ring_keeps_newest(lines.drop_last(), capacity);
        assert(ring_after_all(Seq::empty(), lines, capacity) =~= newest(lines, capacity));
    } else {
        assert(ring_after_all(Seq::empty(), lines, capacity) =~= newest(lines, capacity));
    }
}

/// No step takes the log ring beyond its capacity.
pub proof fn law_ring_stays_bounded(
    pre: MonitorState,
    message: Message,
    post: MonitorState,
    command: Command,
)
    requires
        step(pre, message, post, command),
        pre.log_lines.len() <= LOG_CAPACITY,
    ensures
        post.log_lines.len() <= LOG_CAPACITY,
{
}

/// No step takes the table out of the order of its sort key: if every
/// record was in order with its neighbour before, it is so after.
pub proof fn law_table_stays_sorted(
    pre: MonitorState,
    message: Message,
    post: MonitorState,
    command: Command,
)
    requires
        step(pre, message, post, command),
        neighbours_in_order(pre.processes, pre.sort),
    ensures
        neighbours_in_order(post.processes, post.sort),
{
}

/// The outcome of an export or of a log load reaches the toast and the log
/// ring only: table, sort key, filter, selection and confirmation stay.
pub proof fn law_outcomes_leave_table(
    pre: MonitorState,
    message: Message,
    post: MonitorState,
    command: Command,
)
    requires
        message is ExportFinished || message is LogsLoaded,
        step(pre, message, post, command),
    ensures
        post == (MonitorState { toast: post.toast, log_lines: post.log_lines, ..pre }),
{
}

/// A toast that a step puts up comes with the request to hide it after
/// [`TOAST_SECONDS`], and the hide message clears whatever toast is up.
/// The one toast without such a request is the notice that an export has
/// begun, which the export's outcome replaces.
pub proof fn law_toast_hides(
    pre: MonitorState,
    message: Message,
    post: MonitorState,
    command: Command,
)
    requires
        step(pre, message, post, command),
    ensures
        message is HideToast ==> post.toast is None,
        post.toast != pre.toast && post.toast is Some && !(message is ExportToCsv) ==> command
            == Command::HideToastAfter(TOAST_SECONDS),
{
}

/// Where the sort key can compare all records, a table has one stable sort:
/// two tables that are both sorted from it are the same table.
pub proof fn law_stable_sort_is_unique(
    before: Seq<ProcessRecord>,
    first: Seq<ProcessRecord>,
    second: Seq<ProcessRecord>,
    by: SortBy,
)
    requires
        comparable(before, by),
        sorted_from(before, first, by),
        sorted_from(before, second, by),
    ensures
        first == second,
{
    let o1 = choose|origin: Seq<int>|
        rearranges(before, first, origin) && moves_only_where_needed(first, origin, by);
    let o2 = choose|origin: Seq<int>|
        rearranges(before, second, origin) && moves_only_where_needed(second, origin, by);
    assert forall|i: int| 0 <= i < first.len() implies first[i] == second[i] by {
        lemma_same_origin(before, first, o1, second, o2, by, i);
        assert(o1[i] == o2[i]);
        assert(first[i] == before[o1[i]] && second[i] == before[o2[i]]);
    }
    assert(first =~= second);
}

proof fn lemma_same_origin(
    before: Seq<ProcessRecord>,
    first: Seq<ProcessRecord>,
    o1: Seq<int>,
    second: Seq<ProcessRecord>,
    o2: Seq<int>,
    by: SortBy,
    upto: int,
)
    requires
        rearranges(before, first, o1),
        moves_only_where_needed(first, o1, by),
        in_order(first, by),
        rearranges(before, second, o2),
        moves_only_where_needed(second, o2, by),
        in_order(second, by),
        0 <= upto < before.len(),
    ensures
        forall|j: int| 0 <= j <= upto ==> o1[j] == o2[j],
    decreases upto,
{
    if upto > 0 {
        lemma_same_origin(before, first, o1, second, o2, by, upto - 1);
    }
    let a = o1[upto];
    let b = o2[upto];
    if a != b {
        lemma_every_place_is_used(o2, a);
        let k = choose|k: int| 0 <= k < o2.len() && o2[k] == a;
        lemma_every_place_is_used(o1, b);
        let m = choose|m: int| 0 <= m < o1.len() && o1[m] == b;
        if k < upto {
            assert(o1[k] == o2[k]);
            assert(o1[k] != o1[upto]);
        }
        if m < upto {
            assert(o1[m] == o2[m]);
            assert(o2[m] != o2[upto]);
        }
        assert(k > upto && m > upto);
        assert(second[upto] == before[b] && second[k] == before[a]);
        assert(first[upto] == before[a] && first[m] == before[b]);
        assert(!comes_before(second[k], second[upto], by));
        assert(!comes_before(first[m], first[upto], by));
        if b > a {
            assert(o2[upto] > o2[k]);
            assert(comes_before(second[upto], second[k], by));
        } else {
            assert(o1[upto] > o1[m]);
            assert(comes_before(first[upto], first[m], by));
        }
    }
}

} // verus!
