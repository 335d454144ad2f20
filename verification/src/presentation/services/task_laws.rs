//! What holds of the coordinator over several steps: duplicates are
//! dropped, the number of lookups in flight is bounded, the queue is served
//! first come first, and a lookup that never answers is given up exactly
//! when its time has run out.

use crate::domain::entities::package::{Package, PackageType};
use crate::presentation::services::async_task::{
    settle_outcome_spec, settle_packages_spec, AsyncTask, Completion,
};
use crate::presentation::services::async_task_manager::{
    admitted, completes, detail_at, detail_result, finished_details, kept_in_flight,
    launched_tasks, lemma_poll_keeps_wf, load_failed, single_at, stays_active, stays_in_flight,
    timed_out, ManagerView, PackageInfoTask, TaskResultView, MAX_CONCURRENT_PACKAGE_INFO,
};
use crate::presentation::services::result_cell::{CellRead, ResultCell};
use crate::seqs::{lemma_keep_where_all, lemma_keep_where_indices};
use vstd::prelude::*;

verus! {

/// A singleton task submitted while one of its kind is outstanding is
/// dropped: the state is the one after the first submission alone, so
/// whatever follows brings in one completion of that kind, not two.
pub proof fn lemma_duplicate_singleton_is_dropped(
    state: ManagerView,
    first: AsyncTask,
    second: AsyncTask,
)
    requires
        first.kind_spec().is_singleton(),
        second.kind_spec() == first.kind_spec(),
    ensures
        state.submit(first).has_kind(first.kind_spec()),
        state.submit(first).submit(second) == state.submit(first),
{
    let once = state.submit(first);
    if state.has_kind(first.kind_spec()) {
    } else {
        assert(once.active[state.active.len() as int] == first);
    }
}

/// At most one task of a singleton kind is outstanding, and a poll in which
/// it completes removes it: after the poll none of the kind is outstanding.
pub proof fn lemma_completed_singleton_is_gone(
    pre: ManagerView,
    now: u64,
    singles: Seq<Option<Completion>>,
    details: Seq<CellRead<Package>>,
    post: ManagerView,
    result: TaskResultView,
    i: int,
)
    requires
        pre.wf(),
        pre.poll_post(now, singles, details, post, result),
        0 <= i < pre.active.len(),
    ensures
        completes(pre.active[i], single_at(singles, i)) <==> !post.has_kind(
            pre.active[i].kind_spec(),
        ),
{
    let stay = stays_active(pre.active, singles);
    let from = lemma_keep_where_indices(pre.active, stay);
    let kind = pre.active[i].kind_spec();
    if completes(pre.active[i], single_at(singles, i)) {
        if post.has_kind(kind) {
            let k = choose|k: int| 0 <= k < post.active.len() && (#[trigger] post.active[k]).kind_spec() == kind;
            assert(post.active[k] == pre.active[from[k]]);
            assert(stay(from[k]));
            assert(from[k] != i);
            if from[k] < i {
                assert(pre.active[from[k]].kind_spec() != pre.active[i].kind_spec());
            } else {
                assert(pre.active[i].kind_spec() != pre.active[from[k]].kind_spec());
            }
        }
    } else {
        assert(stay(i));
        let k = choose|k: int| 0 <= k < from.len() && #[trigger] from[k] == i;
        assert(post.active[k] == pre.active[i]);
    }
}

/// A lookup requested while it runs or waits is merged into the one that is
/// there: the second request changes nothing, so one lookup is launched and
/// one record comes back.
pub proof fn lemma_duplicate_request_is_merged(
    state: ManagerView,
    name: String,
    package_type: PackageType,
    cell: ResultCell<Package>,
    now: u64,
    again: String,
    again_type: PackageType,
    again_cell: ResultCell<Package>,
    later: u64,
)
    requires
        again@ == name@,
    ensures
        state.request(name, package_type, cell, now).is_loading(name@) || state.request(
            name,
            package_type,
            cell,
            now,
        ).is_queued(name@),
        state.request(name, package_type, cell, now).request(again, again_type, again_cell, later)
            == state.request(name, package_type, cell, now),
        state.request(name, package_type, cell, now).enqueue(again, again_type) == state.request(
            name,
            package_type,
            cell,
            now,
        ),
{
    let once = state.request(name, package_type, cell, now);
    if state.is_loading(name@) || state.is_queued(name@) {
    } else if state.can_admit() {
        assert(once.in_flight[state.in_flight.len() as int].package_name@ == name@);
    } else {
        assert(once.pending[state.pending.len() as int].0@ == name@);
    }
}

/// A lookup put in the queue twice waits there once.
pub proof fn lemma_duplicate_entry_is_merged(
    state: ManagerView,
    name: String,
    package_type: PackageType,
    again: String,
    again_type: PackageType,
)
    requires
        again@ == name@,
    ensures
        state.enqueue(name, package_type).enqueue(again, again_type) == state.enqueue(
            name,
            package_type,
        ),
{
    let once = state.enqueue(name, package_type);
    if state.is_loading(name@) || state.is_queued(name@) {
    } else {
        assert(once.pending[state.pending.len() as int].0@ == name@);
    }
}

/// One step of the coordinator, as its caller can take it.
pub enum Step {
    Submit { task: AsyncTask },
    Enqueue { name: String, package_type: PackageType },
    Request { name: String, package_type: PackageType, cell: ResultCell<Package>, now: u64 },
    Drain { count: nat },
    Poll {
        now: u64,
        singles: Seq<Option<Completion>>,
        details: Seq<CellRead<Package>>,
        result: TaskResultView,
    },
}

/// Whether `step` leads from `pre` to `post`.
pub open spec fn steps_to(pre: ManagerView, step: Step, post: ManagerView) -> bool {
    match step {
        Step::Submit { task } => post == pre.submit(task),
        Step::Enqueue { name, package_type } => post == pre.enqueue(name, package_type),
        Step::Request { name, package_type, cell, now } => post == pre.request(
            name,
            package_type,
            cell,
            now,
        ),
        Step::Drain { count } => post == pre.drain(count),
        Step::Poll { now, singles, details, result } => pre.poll_post(
            now,
            singles,
            details,
            post,
            result,
        ),
    }
}

/// Whether `states` is a run of the coordinator from the idle state along
/// `steps`.
pub open spec fn is_run(states: Seq<ManagerView>, steps: Seq<Step>) -> bool {
    &&& states.len() == steps.len() + 1
    &&& states[0].is_idle()
    &&& forall|i: int|
        0 <= i < steps.len() ==> steps_to(states[i], #[trigger] steps[i], states[i + 1])
}

/// Every step keeps the invariant of the coordinator.
pub proof fn lemma_step_keeps_wf(pre: ManagerView, step: Step, post: ManagerView)
    requires
        pre.wf(),
        steps_to(pre, step, post),
    ensures
        post.wf(),
{
    match step {
        Step::Submit { task } => {
            match task {
                AsyncTask::LoadPackageInfo { package_name, package_type, result, started_at } => {
                    lemma_launch_keeps_wf(
                        pre,
                        PackageInfoTask { package_name, package_type, result, started_at },
                    );
                },
                _ => {
                    if !pre.has_kind(task.kind_spec()) {
                        let last = pre.active.len() as int;
                        assert forall|i: int| 0 <= i < post.active.len() implies (
                        #[trigger] post.active[i]).kind_spec().is_singleton() by {
                            if i < last {
                                assert(post.active[i] == pre.active[i]);
                            }
                        }
                        assert forall|i: int, j: int| 0 <= i < j < post.active.len() implies (
                        #[trigger] post.active[i]).kind_spec() != (
                        #[trigger] post.active[j]).kind_spec() by {
                            assert(post.active[i] == pre.active[i]);
                            if j < last {
                                assert(post.active[j] == pre.active[j]);
                            }
                        }
                    }
                },
            }
        },
        Step::Enqueue { name, package_type } => {
            lemma_enqueue_keeps_wf(pre, name, package_type);
        },
        Step::Request { name, package_type, cell, now } => {
            if pre.is_loading(name@) || pre.is_queued(name@) {
            } else if pre.can_admit() {
                let task = PackageInfoTask {
                    package_name: name,
                    package_type,
                    result: cell,
                    started_at: now,
                };
                lemma_launch_keeps_wf(pre, task);
            } else {
                lemma_enqueue_keeps_wf(pre, name, package_type);
            }
        },
        Step::Drain { count } => {
            let n = pre.drain_len(count) as int;
            assert forall|i: int, j: int| 0 <= i < j < post.pending.len() implies (
            #[trigger] post.pending[i]).0@ != (#[trigger] post.pending[j]).0@ by {
                assert(post.pending[i] == pre.pending[i + n]);
                assert(post.pending[j] == pre.pending[j + n]);
            }
            assert forall|i: int, j: int|
                0 <= i < post.in_flight.len() && 0 <= j < post.pending.len() implies (
            #[trigger] post.in_flight[i]).package_name@ != (#[trigger] post.pending[j]).0@ by {
                assert(post.pending[j] == pre.pending[j + n]);
            }
        },
        Step::Poll { now, singles, details, result } => {
            lemma_poll_keeps_wf(pre, now, singles, details, post, result);
        },
    }
}

/// Launching a lookup keeps the invariant.
pub proof fn lemma_launch_keeps_wf(pre: ManagerView, task: PackageInfoTask)
    requires
        pre.wf(),
    ensures
        pre.launch(task).wf(),
{
    let post = pre.launch(task);
    if pre.admits(task.package_name@) {
        let last = pre.in_flight.len() as int;
        assert forall|i: int, j: int| 0 <= i < j < post.in_flight.len() implies (
        #[trigger] post.in_flight[i]).package_name@ != (
        #[trigger] post.in_flight[j]).package_name@ by {
            assert(post.in_flight[i] == pre.in_flight[i]);
            if j < last {
                assert(post.in_flight[j] == pre.in_flight[j]);
            }
        }
        assert forall|i: int, j: int|
            0 <= i < post.in_flight.len() && 0 <= j < post.pending.len() implies (
        #[trigger] post.in_flight[i]).package_name@ != (#[trigger] post.pending[j]).0@ by {
            if i < last {
                assert(post.in_flight[i] == pre.in_flight[i]);
            } else {
                assert(pre.pending[j].0@ != task.package_name@);
            }
        }
    }
}

/// Putting a lookup in the queue keeps the invariant.
pub proof fn lemma_enqueue_keeps_wf(pre: ManagerView, name: String, package_type: PackageType)
    requires
        pre.wf(),
    ensures
        pre.enqueue(name, package_type).wf(),
{
    let post = pre.enqueue(name, package_type);
    if !(pre.is_loading(name@) || pre.is_queued(name@)) {
        let last = pre.pending.len() as int;
        assert forall|i: int, j: int| 0 <= i < j < post.pending.len() implies (
        #[trigger] post.pending[i]).0@ != (#[trigger] post.pending[j]).0@ by {
            assert(post.pending[i] == pre.pending[i]);
            if j < last {
                assert(post.pending[j] == pre.pending[j]);
            }
        }
        assert forall|i: int, j: int|
            0 <= i < post.in_flight.len() && 0 <= j < post.pending.len() implies (
        #[trigger] post.in_flight[i]).package_name@ != (#[trigger] post.pending[j]).0@ by {
            if j < last {
                assert(post.pending[j] == pre.pending[j]);
            } else {
                assert(pre.in_flight[i].package_name@ != name@);
            }
        }
    }
}

/// At no point of a run are more than `MAX_CONCURRENT_PACKAGE_INFO` lookups
/// in flight, however many were requested and whatever the polls saw; and
/// the invariant holds of every state of the run.
pub proof fn lemma_run_is_bounded(states: Seq<ManagerView>, steps: Seq<Step>, at: int)
    requires
        is_run(states, steps),
        0 <= at < states.len(),
    ensures
        states[at].wf(),
        states[at].in_flight.len() <= MAX_CONCURRENT_PACKAGE_INFO,
    decreases at,
{
    if at > 0 {
        lemma_run_is_bounded(states, steps, at - 1);
        assert(steps_to(states[at - 1], steps[at - 1], states[at - 1 + 1]));
        lemma_step_keeps_wf(states[at - 1], steps[at - 1], states[at]);
    }
}

/// The queue is served first come first. A request that has to wait goes to
/// the end of the queue; a poll admits the front of the queue, in its order,
/// into the free slots, behind the lookups that stayed; so a lookup that
/// waits behind another is never in flight before it.
pub proof fn lemma_admission_is_fifo(
    pre: ManagerView,
    now: u64,
    singles: Seq<Option<Completion>>,
    details: Seq<CellRead<Package>>,
    post: ManagerView,
    result: TaskResultView,
)
    requires
        pre.wf(),
        pre.poll_post(now, singles, details, post, result),
    ensures
        result.started_package_info_loads.len() == admitted(
            kept_in_flight(pre.in_flight, now, details).len(),
            pre.pending.len(),
        ),
        post.pending == pre.pending.skip(result.started_package_info_loads.len() as int),
        forall|i: int|
            0 <= i < result.started_package_info_loads.len() ==> (#[trigger] post.in_flight[kept_in_flight(
                pre.in_flight,
                now,
                details,
            ).len() + i]).package_name == pre.pending[i].0,
        forall|i: int, j: int|
            0 <= i < j < pre.pending.len() && post.is_loading((#[trigger] pre.pending[j]).0@)
                ==> post.is_loading((#[trigger] pre.pending[i]).0@),
        post.in_flight.len() < MAX_CONCURRENT_PACKAGE_INFO ==> post.pending.len() == 0,
{
    lemma_poll_keeps_wf(pre, now, singles, details, post, result);
    let kept = kept_in_flight(pre.in_flight, now, details);
    let started = result.started_package_info_loads;
    let n = started.len() as int;
    let fresh = launched_tasks(started, now);
    lemma_keep_where_all(pre.in_flight, stays_in_flight(pre.in_flight, now, details));
    assert forall|i: int| 0 <= i < n implies (#[trigger] post.in_flight[kept.len() + i]).package_name
        == pre.pending[i].0 by {
        assert(post.in_flight[kept.len() + i] == fresh[i]);
        assert(fresh[i].package_name == started[i].package_name);
    }
    assert forall|i: int, j: int|
        0 <= i < j < pre.pending.len() && post.is_loading(
            (#[trigger] pre.pending[j]).0@,
        ) implies post.is_loading((#[trigger] pre.pending[i]).0@) by {
        if j >= n {
            // A lookup that still waits is not in flight.
            assert(post.pending[j - n] == pre.pending[j]);
            let k = choose|k: int|
                0 <= k < post.in_flight.len() && (#[trigger] post.in_flight[k]).package_name@
                    == pre.pending[j].0@;
            assert(post.in_flight[k].package_name@ != post.pending[j - n].0@);
        } else {
            assert(post.in_flight[kept.len() + i].package_name == pre.pending[i].0);
        }
    }
}

/// Each record that a poll brings in for a lookup stands at a place of
/// `finished_details`, and each place holds the record of a lookup that
/// ended.
pub proof fn lemma_finished_details_members(
    tasks: Seq<PackageInfoTask>,
    now: u64,
    details: Seq<CellRead<Package>>,
    n: nat,
)
    requires
        n <= tasks.len(),
    ensures
        forall|i: int|
            0 <= i < n && detail_result(#[trigger] tasks[i], now, detail_at(details, i)) is Some
                ==> finished_details(tasks, now, details, n).contains(
                (tasks[i].package_name, detail_result(tasks[i], now, detail_at(details, i))->0),
            ),
        forall|k: int|
            0 <= k < finished_details(tasks, now, details, n).len() ==> exists|i: int|
                0 <= i < n && detail_result(tasks[i], now, detail_at(details, i)) == Some(
                    (#[trigger] finished_details(tasks, now, details, n)[k]).1,
                ) && tasks[i].package_name == finished_details(tasks, now, details, n)[k].0,
    decreases n,
{
    if n > 0 {
        let m = (n - 1) as nat;
        lemma_finished_details_members(tasks, now, details, m);
        let before = finished_details(tasks, now, details, m);
        let after = finished_details(tasks, now, details, n);
        let last = detail_result(tasks[n - 1], now, detail_at(details, n - 1));
        assert forall|i: int|
            0 <= i < n && detail_result(
                #[trigger] tasks[i],
                now,
                detail_at(details, i),
            ) is Some implies after.contains(
            (tasks[i].package_name, detail_result(tasks[i], now, detail_at(details, i))->0),
        ) by {
            let entry = (
                tasks[i].package_name,
                detail_result(tasks[i], now, detail_at(details, i))->0,
            );
            if i < m {
                let k = choose|k: int| 0 <= k < before.len() && before[k] == entry;
                assert(after[k] == entry);
            } else {
                assert(after[before.len() as int] == entry);
            }
        }
        assert forall|k: int| 0 <= k < after.len() implies exists|i: int|
            0 <= i < n && detail_result(tasks[i], now, detail_at(details, i)) == Some(
                (#[trigger] after[k]).1,
            ) && tasks[i].package_name == after[k].0 by {
            if k < before.len() {
                assert(after[k] == before[k]);
                let i = choose|i: int|
                    0 <= i < m && detail_result(tasks[i], now, detail_at(details, i)) == Some(
                        before[k].1,
                    ) && tasks[i].package_name == before[k].0;
                assert(0 <= i < n);
            } else {
                assert(last is Some);
                assert(after[k] == (tasks[n - 1].package_name, last->0));
            }
        }
    }
}

/// A lookup that never answers is given up exactly when its time has run
/// out. At a poll at `now` that finds its cell empty or busy, it leaves the
/// lookups in flight, and is reported as failed, if strictly more than the
/// timeout lies between its start and `now`; otherwise it stays in flight
/// and nothing is reported for it.
pub proof fn lemma_timeout_is_exact(
    pre: ManagerView,
    now: u64,
    singles: Seq<Option<Completion>>,
    details: Seq<CellRead<Package>>,
    post: ManagerView,
    result: TaskResultView,
    i: int,
)
    requires
        pre.wf(),
        pre.poll_post(now, singles, details, post, result),
        0 <= i < pre.in_flight.len(),
        !(detail_at(details, i) is Ready),
    ensures
        timed_out(pre.in_flight[i].started_at, now) <==> !post.is_loading(
            pre.in_flight[i].package_name@,
        ),
        timed_out(pre.in_flight[i].started_at, now) ==> result.package_info.contains(
            (
                pre.in_flight[i].package_name,
                load_failed(pre.in_flight[i].package_name, pre.in_flight[i].package_type),
            ),
        ),
        !timed_out(pre.in_flight[i].started_at, now) ==> forall|k: int|
            0 <= k < result.package_info.len() ==> (#[trigger] result.package_info[k]).0@
                != pre.in_flight[i].package_name@,
{
    let task = pre.in_flight[i];
    let name = task.package_name@;
    let fly = stays_in_flight(pre.in_flight, now, details);
    let kept = kept_in_flight(pre.in_flight, now, details);
    let at = lemma_keep_where_indices(pre.in_flight, fly);
    let started = result.started_package_info_loads;
    let fresh = launched_tasks(started, now);
    lemma_finished_details_members(pre.in_flight, now, details, pre.in_flight.len());
    if timed_out(task.started_at, now) {
        assert(!fly(i));
        if post.is_loading(name) {
            let k = choose|k: int|
                0 <= k < post.in_flight.len() && (#[trigger] post.in_flight[k]).package_name@
                    == name;
            if k < kept.len() {
                assert(post.in_flight[k] == kept[k]);
                assert(kept[k] == pre.in_flight[at[k]]);
                assert(fly(at[k]));
                if at[k] < i {
                    assert(pre.in_flight[at[k]].package_name@ != pre.in_flight[i].package_name@);
                } else {
                    assert(pre.in_flight[i].package_name@ != pre.in_flight[at[k]].package_name@);
                }
            } else {
                let q = k - kept.len();
                assert(post.in_flight[k] == fresh[q]);
                assert(fresh[q].package_name == started[q].package_name);
                assert(pre.in_flight[i].package_name@ != pre.pending[q].0@);
            }
        }
    } else {
        assert(fly(i));
        let k = choose|k: int| 0 <= k < at.len() && #[trigger] at[k] == i;
        assert(post.in_flight[k] == kept[k]);
        assert(post.in_flight[k].package_name@ == name);
        assert forall|k: int| 0 <= k < result.package_info.len() implies (
        #[trigger] result.package_info[k]).0@ != name by {
            let j = choose|j: int|
                0 <= j < pre.in_flight.len() && detail_result(
                    pre.in_flight[j],
                    now,
                    detail_at(details, j),
                ) == Some(result.package_info[k].1) && pre.in_flight[j].package_name
                    == result.package_info[k].0;
            if j < i {
                assert(pre.in_flight[j].package_name@ != pre.in_flight[i].package_name@);
            } else if j > i {
                assert(pre.in_flight[i].package_name@ != pre.in_flight[j].package_name@);
            }
        }
    }
}

/// Every lookup runs to an end. At a poll at which each lookup in flight has
/// either answered or run out of time, all of them end: each brings in one
/// record, none stays in flight, and the free slots are given to the front
/// of the queue. Since a lookup that does not answer runs out of time, the
/// queue is served to its end however many lookups were requested.
pub proof fn lemma_ended_lookups_leave(
    pre: ManagerView,
    now: u64,
    singles: Seq<Option<Completion>>,
    details: Seq<CellRead<Package>>,
    post: ManagerView,
    result: TaskResultView,
)
    requires
        pre.wf(),
        pre.poll_post(now, singles, details, post, result),
        forall|i: int|
            0 <= i < pre.in_flight.len() ==> timed_out(
                (#[trigger] pre.in_flight[i]).started_at,
                now,
            ) || detail_at(details, i) is Ready,
    ensures
        result.package_info.len() == pre.in_flight.len(),
        post.in_flight.len() == admitted(0, pre.pending.len()),
        post.pending.len() == pre.pending.len() - admitted(0, pre.pending.len()),
        forall|i: int|
            0 <= i < pre.in_flight.len() ==> !post.is_loading(
                (#[trigger] pre.in_flight[i]).package_name@,
            ),
{
    let fly = stays_in_flight(pre.in_flight, now, details);
    assert forall|j: int| 0 <= j < pre.in_flight.len() implies !#[trigger] fly(j) by {
        assert(timed_out(pre.in_flight[j].started_at, now) || detail_at(details, j) is Ready);
    }
    lemma_keep_where_all(pre.in_flight, fly);
    lemma_all_finished(pre.in_flight, now, details, pre.in_flight.len());
    lemma_poll_keeps_wf(pre, now, singles, details, post, result);
    let started = result.started_package_info_loads;
    let fresh = launched_tasks(started, now);
    assert forall|i: int| 0 <= i < pre.in_flight.len() implies !post.is_loading(
        (#[trigger] pre.in_flight[i]).package_name@,
    ) by {
        if post.is_loading(pre.in_flight[i].package_name@) {
            let k = choose|k: int|
                0 <= k < post.in_flight.len() && (#[trigger] post.in_flight[k]).package_name@
                    == pre.in_flight[i].package_name@;
            assert(post.in_flight[k] == fresh[k]);
            assert(fresh[k].package_name == started[k].package_name);
            assert(pre.in_flight[i].package_name@ != pre.pending[k].0@);
        }
    }
}

/// Where each of the first `n` lookups ends, each brings in a record.
proof fn lemma_all_finished(
    tasks: Seq<PackageInfoTask>,
    now: u64,
    details: Seq<CellRead<Package>>,
    n: nat,
)
    requires
        n <= tasks.len(),
        forall|i: int|
            0 <= i < n ==> timed_out((#[trigger] tasks[i]).started_at, now) || detail_at(
                details,
                i,
            ) is Ready,
    ensures
        finished_details(tasks, now, details, n).len() == n,
    decreases n,
{
    if n > 0 {
        lemma_all_finished(tasks, now, details, (n - 1) as nat);
        assert(timed_out(tasks[n - 1].started_at, now) || detail_at(details, n - 1) is Ready);
    }
}

/// A poll never waits for a cell: a task whose log cell was busy, or any of
/// whose payload cells was busy, stays outstanding, and a lookup whose cell
/// was busy stays in flight unless its time has run out.
pub proof fn lemma_busy_cell_keeps_task(
    logs: CellRead<Vec<String>>,
    packages: CellRead<Vec<Package>>,
    success: CellRead<bool>,
    message: CellRead<String>,
    lookup: PackageInfoTask,
    now: u64,
)
    ensures
        logs is Busy || packages is Busy ==> settle_packages_spec(logs, packages) is None,
        logs is Busy || success is Busy || message is Busy ==> settle_outcome_spec(
            logs,
            success,
            message,
        ) is None,
        !timed_out(lookup.started_at, now) ==> detail_result(lookup, now, CellRead::Busy) is None,
{
}

} // verus!
