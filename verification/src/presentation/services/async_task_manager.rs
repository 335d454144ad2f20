//! The task coordinator: which background work is outstanding, what may
//! start, and what one frame's poll makes of the cells it reads.
//!
//! The coordinator never waits. A poll first takes one non-blocking look at
//! the cells of every outstanding task ([`AsyncTaskManager::observe`]) and
//! then settles the tasks from what it saw ([`AsyncTaskManager::apply`]).
//! Only the first step depends on the workers; the second is a function of
//! the state, the time and the readings, and its contract is exact.

use crate::domain::entities::package::{Package, PackageType};
use crate::domain::entities::service::Service;
use crate::presentation::services::async_task::{AsyncTask, Completion, TaskKind};
use crate::presentation::services::result_cell::{CellRead, ResultCell};
use crate::seqs::{keep_where, lemma_keep_where_all, lemma_keep_where_indices, lemma_keep_where_step};
use crate::text::same_text;
use vstd::prelude::*;

verus! {

/// How many package-info lookups may be in flight at once.
pub const MAX_CONCURRENT_PACKAGE_INFO: usize = 15;

/// After this many milliseconds a package-info lookup is given up.
pub const PACKAGE_INFO_TIMEOUT_MS: u64 = 10_000;

/// A package-info lookup that is in flight.
pub struct PackageInfoTask {
    pub package_name: String,
    pub package_type: PackageType,
    pub result: ResultCell<Package>,
    /// Milliseconds on the caller's monotonic clock.
    pub started_at: u64,
}

/// The worker's side of a lookup that the coordinator has just admitted: the
/// caller starts the lookup and has it write its outcome into `result`.
pub struct PackageInfoLaunch {
    pub package_name: String,
    pub package_type: PackageType,
    pub result: ResultCell<Package>,
}

/// What became of a request for package info.
pub enum LoadRequest {
    /// The lookup is in flight already.
    AlreadyLoading,
    /// The lookup is waiting in the queue already.
    AlreadyQueued,
    /// The lookup was admitted: the caller starts it.
    Started(PackageInfoLaunch),
    /// All slots are taken: the lookup waits in the queue.
    Queued,
}

/// One look at the cells of every outstanding task: for each singleton task,
/// in order, what it left behind if it is complete; for each lookup in
/// flight, in order, what its cell showed.
pub struct PollReadings {
    pub singles: Vec<Option<Completion>>,
    pub details: Vec<CellRead<Package>>,
}

/// What one poll brought in.
pub struct TaskResult {
    pub installed_packages: Option<Vec<Package>>,
    pub outdated_packages: Option<Vec<Package>>,
    pub search_results: Option<Vec<Package>>,
    /// Every lookup that ended in this poll, with its record; one that timed
    /// out has a record marked `version_load_failed`.
    pub package_info: Vec<(String, Package)>,
    pub logs: Vec<String>,
    /// The names in `package_info`, in the same order.
    pub completed_package_info_loads: Vec<String>,
    pub install_completed: Option<(bool, String)>,
    pub uninstall_completed: Option<(bool, String)>,
    pub update_completed: Option<(bool, String)>,
    pub update_all_completed: Option<(bool, String)>,
    pub clean_cache_completed: Option<(bool, String)>,
    pub cleanup_old_versions_completed: Option<(bool, String)>,
    pub pin_completed: Option<(String, bool, String)>,
    pub unpin_completed: Option<(String, bool, String)>,
    pub services: Option<Vec<Service>>,
    pub start_service_completed: Option<(String, bool, String)>,
    pub stop_service_completed: Option<(String, bool, String)>,
    pub restart_service_completed: Option<(String, bool, String)>,
    pub export_packages_completed: Option<(bool, String)>,
    pub import_packages_completed: Option<(bool, String)>,
    /// Lookups that left the queue in this poll: the caller starts them.
    pub started_package_info_loads: Vec<PackageInfoLaunch>,
}

/// A `TaskResult` with its lists as sequences.
pub struct TaskResultView {
    pub installed_packages: Option<Seq<Package>>,
    pub outdated_packages: Option<Seq<Package>>,
    pub search_results: Option<Seq<Package>>,
    pub package_info: Seq<(String, Package)>,
    pub logs: Seq<String>,
    pub completed_package_info_loads: Seq<String>,
    pub install_completed: Option<(bool, String)>,
    pub uninstall_completed: Option<(bool, String)>,
    pub update_completed: Option<(bool, String)>,
    pub update_all_completed: Option<(bool, String)>,
    pub clean_cache_completed: Option<(bool, String)>,
    pub cleanup_old_versions_completed: Option<(bool, String)>,
    pub pin_completed: Option<(String, bool, String)>,
    pub unpin_completed: Option<(String, bool, String)>,
    pub services: Option<Seq<Service>>,
    pub start_service_completed: Option<(String, bool, String)>,
    pub stop_service_completed: Option<(String, bool, String)>,
    pub restart_service_completed: Option<(String, bool, String)>,
    pub export_packages_completed: Option<(bool, String)>,
    pub import_packages_completed: Option<(bool, String)>,
    pub started_package_info_loads: Seq<PackageInfoLaunch>,
}

/// The list that a slot for packages holds, as a sequence.
pub open spec fn opt_seq(list: Option<Vec<Package>>) -> Option<Seq<Package>> {
    match list {
        Some(v) => Some(v@),
        None => None,
    }
}

/// The list that the slot for services holds, as a sequence.
pub open spec fn opt_services(list: Option<Vec<Service>>) -> Option<Seq<Service>> {
    match list {
        Some(v) => Some(v@),
        None => None,
    }
}

impl View for TaskResult {
    type V = TaskResultView;

    open spec fn view(&self) -> TaskResultView {
        TaskResultView {
            installed_packages: opt_seq(self.installed_packages),
            outdated_packages: opt_seq(self.outdated_packages),
            search_results: opt_seq(self.search_results),
            package_info: self.package_info@,
            logs: self.logs@,
            completed_package_info_loads: self.completed_package_info_loads@,
            install_completed: self.install_completed,
            uninstall_completed: self.uninstall_completed,
            update_completed: self.update_completed,
            update_all_completed: self.update_all_completed,
            clean_cache_completed: self.clean_cache_completed,
            cleanup_old_versions_completed: self.cleanup_old_versions_completed,
            pin_completed: self.pin_completed,
            unpin_completed: self.unpin_completed,
            services: opt_services(self.services),
            start_service_completed: self.start_service_completed,
            stop_service_completed: self.stop_service_completed,
            restart_service_completed: self.restart_service_completed,
            export_packages_completed: self.export_packages_completed,
            import_packages_completed: self.import_packages_completed,
            started_package_info_loads: self.started_package_info_loads@,
        }
    }
}

impl TaskResultView {
    /// The result of a poll in which nothing happened.
    pub open spec fn empty() -> TaskResultView {
        TaskResultView {
            installed_packages: None,
            outdated_packages: None,
            search_results: None,
            package_info: Seq::empty(),
            logs: Seq::empty(),
            completed_package_info_loads: Seq::empty(),
            install_completed: None,
            uninstall_completed: None,
            update_completed: None,
            update_all_completed: None,
            clean_cache_completed: None,
            cleanup_old_versions_completed: None,
            pin_completed: None,
            unpin_completed: None,
            services: None,
            start_service_completed: None,
            stop_service_completed: None,
            restart_service_completed: None,
            export_packages_completed: None,
            import_packages_completed: None,
            started_package_info_loads: Seq::empty(),
        }
    }

    /// The result with one completed singleton task merged in: its payload
    /// goes to the slot of its kind, its log lines behind those gathered so
    /// far. A completion that does not fit the task changes nothing.
    pub open spec fn absorb(self, task: AsyncTask, done: Completion) -> TaskResultView {
        match done {
            Completion::Packages { packages, logs } => match task {
                AsyncTask::LoadInstalled { .. } => TaskResultView {
                    installed_packages: Some(packages@),
                    logs: self.logs + logs@,
                    ..self
                },
                AsyncTask::LoadOutdated { .. } => TaskResultView {
                    outdated_packages: Some(packages@),
                    logs: self.logs + logs@,
                    ..self
                },
                AsyncTask::Search { .. } => TaskResultView {
                    search_results: Some(packages@),
                    logs: self.logs + logs@,
                    ..self
                },
                _ => self,
            },
            Completion::Outcome { success, message, logs } => match task {
                AsyncTask::Install { .. } => TaskResultView {
                    install_completed: Some((success, message)),
                    logs: self.logs + logs@,
                    ..self
                },
                AsyncTask::Uninstall { .. } => TaskResultView {
                    uninstall_completed: Some((success, message)),
                    logs: self.logs + logs@,
                    ..self
                },
                AsyncTask::Update { .. } => TaskResultView {
                    update_completed: Some((success, message)),
                    logs: self.logs + logs@,
                    ..self
                },
                AsyncTask::UpdateAll { .. } => TaskResultView {
                    update_all_completed: Some((success, message)),
                    logs: self.logs + logs@,
                    ..self
                },
                AsyncTask::CleanCache { .. } => TaskResultView {
                    clean_cache_completed: Some((success, message)),
                    logs: self.logs + logs@,
                    ..self
                },
                AsyncTask::CleanupOldVersions { .. } => TaskResultView {
                    cleanup_old_versions_completed: Some((success, message)),
                    logs: self.logs + logs@,
                    ..self
                },
                AsyncTask::Pin { package_name, .. } => TaskResultView {
                    pin_completed: Some((package_name, success, message)),
                    logs: self.logs + logs@,
                    ..self
                },
                AsyncTask::Unpin { package_name, .. } => TaskResultView {
                    unpin_completed: Some((package_name, success, message)),
                    logs: self.logs + logs@,
                    ..self
                },
                AsyncTask::StartService { service_name, .. } => TaskResultView {
                    start_service_completed: Some((service_name, success, message)),
                    logs: self.logs + logs@,
                    ..self
                },
                AsyncTask::StopService { service_name, .. } => TaskResultView {
                    stop_service_completed: Some((service_name, success, message)),
                    logs: self.logs + logs@,
                    ..self
                },
                AsyncTask::RestartService { service_name, .. } => TaskResultView {
                    restart_service_completed: Some((service_name, success, message)),
                    logs: self.logs + logs@,
                    ..self
                },
                AsyncTask::ExportPackages { .. } => TaskResultView {
                    export_packages_completed: Some((success, message)),
                    logs: self.logs + logs@,
                    ..self
                },
                AsyncTask::ImportPackages { .. } => TaskResultView {
                    import_packages_completed: Some((success, message)),
                    logs: self.logs + logs@,
                    ..self
                },
                _ => self,
            },
            Completion::Services { services, logs } => match task {
                AsyncTask::LoadServices { .. } => TaskResultView {
                    services: Some(services@),
                    logs: self.logs + logs@,
                    ..self
                },
                _ => self,
            },
        }
    }
}

/// Whether a lookup started at `started_at` has run out of time at `now`:
/// strictly more than the timeout lies between the two.
pub open spec fn timed_out(started_at: u64, now: u64) -> bool {
    now - started_at > PACKAGE_INFO_TIMEOUT_MS
}

/// The record that stands for a lookup that was given up.
pub open spec fn load_failed(name: String, package_type: PackageType) -> Package {
    Package {
        name,
        version: None,
        available_version: None,
        description: None,
        package_type,
        installed: false,
        outdated: false,
        pinned: false,
        version_load_failed: true,
    }
}

/// The reading for the singleton task at place `i`; a task without a reading
/// counts as not looked at.
pub open spec fn single_at(singles: Seq<Option<Completion>>, i: int) -> Option<Completion> {
    if 0 <= i < singles.len() {
        singles[i]
    } else {
        None
    }
}

/// The reading for the lookup at place `i`; a lookup without a reading counts
/// as not written.
pub open spec fn detail_at(details: Seq<CellRead<Package>>, i: int) -> CellRead<Package> {
    if 0 <= i < details.len() {
        details[i]
    } else {
        CellRead::Empty
    }
}

/// A singleton task ends in a poll when its reading is a completion that
/// fits its kind.
pub open spec fn completes(task: AsyncTask, reading: Option<Completion>) -> bool {
    reading matches Some(done) && done.fits(task.kind_spec())
}

/// How a lookup stands at `now` given what its cell showed: it ends as
/// failed when it has timed out, whatever the cell holds; else it ends with
/// the record in the cell, if there is one; else it stays in flight.
pub open spec fn detail_result(task: PackageInfoTask, now: u64, reading: CellRead<Package>) -> Option<
    Package,
> {
    if timed_out(task.started_at, now) {
        Some(load_failed(task.package_name, task.package_type))
    } else {
        match reading {
            CellRead::Ready(record) => Some(record),
            _ => None,
        }
    }
}

/// For each place, whether the singleton task there stays outstanding.
pub open spec fn stays_active(tasks: Seq<AsyncTask>, singles: Seq<Option<Completion>>) -> spec_fn(
    int,
) -> bool {
    |i: int| !completes(tasks[i], single_at(singles, i))
}

/// For each place, whether the lookup there stays in flight at `now`.
pub open spec fn stays_in_flight(
    tasks: Seq<PackageInfoTask>,
    now: u64,
    details: Seq<CellRead<Package>>,
) -> spec_fn(int) -> bool {
    |i: int| detail_result(tasks[i], now, detail_at(details, i)) is None
}

/// The singleton tasks that are still outstanding after a poll.
pub open spec fn kept_active(tasks: Seq<AsyncTask>, singles: Seq<Option<Completion>>) -> Seq<
    AsyncTask,
> {
    keep_where(tasks, stays_active(tasks, singles))
}

/// The lookups that are still in flight after a poll at `now`.
pub open spec fn kept_in_flight(
    tasks: Seq<PackageInfoTask>,
    now: u64,
    details: Seq<CellRead<Package>>,
) -> Seq<PackageInfoTask> {
    keep_where(tasks, stays_in_flight(tasks, now, details))
}

/// What the first `n` singleton tasks bring in.
pub open spec fn gathered(tasks: Seq<AsyncTask>, singles: Seq<Option<Completion>>, n: nat) -> TaskResultView
    decreases n,
{
    if n == 0 {
        TaskResultView::empty()
    } else {
        let before = gathered(tasks, singles, (n - 1) as nat);
        let i = n - 1;
        if i < tasks.len() && completes(tasks[i], single_at(singles, i)) {
            before.absorb(tasks[i], single_at(singles, i)->0)
        } else {
            before
        }
    }
}

/// The records of the lookups among the first `n` that end at `now`.
pub open spec fn finished_details(
    tasks: Seq<PackageInfoTask>,
    now: u64,
    details: Seq<CellRead<Package>>,
    n: nat,
) -> Seq<(String, Package)>
    decreases n,
{
    if n == 0 {
        Seq::empty()
    } else {
        let before = finished_details(tasks, now, details, (n - 1) as nat);
        let i = n - 1;
        if i < tasks.len() {
            match detail_result(tasks[i], now, detail_at(details, i)) {
                Some(record) => before.push((tasks[i].package_name, record)),
                None => before,
            }
        } else {
            before
        }
    }
}

/// The names of the finished lookups, in order.
pub open spec fn finished_names(finished: Seq<(String, Package)>) -> Seq<String> {
    Seq::new(finished.len(), |i: int| finished[i].0)
}

/// How many lookups leave the queue when `kept` are in flight and `queued`
/// wait: as many as there are free slots, and no more than wait.
pub open spec fn admitted(kept: nat, queued: nat) -> nat {
    if kept >= MAX_CONCURRENT_PACKAGE_INFO {
        0
    } else if queued <= MAX_CONCURRENT_PACKAGE_INFO - kept {
        queued
    } else {
        (MAX_CONCURRENT_PACKAGE_INFO - kept) as nat
    }
}

/// The tasks that stand for lookups started at `now`.
pub open spec fn launched_tasks(started: Seq<PackageInfoLaunch>, now: u64) -> Seq<PackageInfoTask> {
    Seq::new(
        started.len(),
        |i: int|
            PackageInfoTask {
                package_name: started[i].package_name,
                package_type: started[i].package_type,
                result: started[i].result,
                started_at: now,
            },
    )
}

/// The coordinator's state as three sequences.
pub struct ManagerView {
    /// Outstanding singleton tasks, oldest first.
    pub active: Seq<AsyncTask>,
    /// Lookups in flight, oldest first.
    pub in_flight: Seq<PackageInfoTask>,
    /// Lookups waiting for a slot, first come first.
    pub pending: Seq<(String, PackageType)>,
}

impl ManagerView {
    /// Whether a singleton task of the kind is outstanding.
    pub open spec fn has_kind(self, kind: TaskKind) -> bool {
        exists|i: int| 0 <= i < self.active.len() && (#[trigger] self.active[i]).kind_spec() == kind
    }

    /// Whether a lookup by this name is in flight.
    pub open spec fn is_loading(self, name: Seq<char>) -> bool {
        exists|i: int|
            0 <= i < self.in_flight.len() && (#[trigger] self.in_flight[i]).package_name@ == name
    }

    /// Whether a lookup by this name waits in the queue.
    pub open spec fn is_queued(self, name: Seq<char>) -> bool {
        exists|i: int| 0 <= i < self.pending.len() && (#[trigger] self.pending[i]).0@ == name
    }

    /// Whether a slot for one more lookup is free.
    pub open spec fn can_admit(self) -> bool {
        self.in_flight.len() < MAX_CONCURRENT_PACKAGE_INFO
    }

    /// Nothing is outstanding and nothing waits.
    pub open spec fn is_idle(self) -> bool {
        self.active.len() == 0 && self.in_flight.len() == 0 && self.pending.len() == 0
    }

    /// The invariant of the coordinator: of each singleton kind at most one
    /// task is outstanding; at most `MAX_CONCURRENT_PACKAGE_INFO` lookups are
    /// in flight; no name occurs twice in flight or twice in the queue, and
    /// none both in flight and in the queue.
    pub open spec fn wf(self) -> bool {
        &&& forall|i: int|
            0 <= i < self.active.len() ==> (#[trigger] self.active[i]).kind_spec().is_singleton()
        &&& forall|i: int, j: int|
            0 <= i < j < self.active.len() ==> (#[trigger] self.active[i]).kind_spec() != (
            #[trigger] self.active[j]).kind_spec()
        &&& self.in_flight.len() <= MAX_CONCURRENT_PACKAGE_INFO
        &&& forall|i: int, j: int|
            0 <= i < j < self.in_flight.len() ==> (#[trigger] self.in_flight[i]).package_name@ != (
            #[trigger] self.in_flight[j]).package_name@
        &&& forall|i: int, j: int|
            0 <= i < j < self.pending.len() ==> (#[trigger] self.pending[i]).0@ != (
            #[trigger] self.pending[j]).0@
        &&& forall|i: int, j: int|
            0 <= i < self.in_flight.len() && 0 <= j < self.pending.len() ==> (
            #[trigger] self.in_flight[i]).package_name@ != (#[trigger] self.pending[j]).0@
    }

    /// A lookup by this name may start: it neither runs nor waits, and a
    /// slot is free.
    pub open spec fn admits(self, name: Seq<char>) -> bool {
        !self.is_loading(name) && !self.is_queued(name) && self.can_admit()
    }

    /// The state after a lookup was handed in to start at once: it is in
    /// flight if it was admitted; else nothing has changed.
    pub open spec fn launch(self, task: PackageInfoTask) -> ManagerView {
        if self.admits(task.package_name@) {
            ManagerView { in_flight: self.in_flight.push(task), ..self }
        } else {
            self
        }
    }

    /// The state after a task was submitted. A singleton task is recorded
    /// unless one of its kind is outstanding; a lookup is launched.
    pub open spec fn submit(self, task: AsyncTask) -> ManagerView {
        match task {
            AsyncTask::LoadPackageInfo { package_name, package_type, result, started_at } => {
                self.launch(PackageInfoTask { package_name, package_type, result, started_at })
            },
            _ => if self.has_kind(task.kind_spec()) {
                self
            } else {
                ManagerView { active: self.active.push(task), ..self }
            },
        }
    }

    /// The state after a lookup was put in the queue: it waits at the end
    /// unless it runs or waits already.
    pub open spec fn enqueue(self, name: String, package_type: PackageType) -> ManagerView {
        if self.is_loading(name@) || self.is_queued(name@) {
            self
        } else {
            ManagerView { pending: self.pending.push((name, package_type)), ..self }
        }
    }

    /// The state after a lookup was requested at `now`, where `cell` is the
    /// cell it gets if it starts: nothing changes if it runs or waits
    /// already; it starts if a slot is free; else it waits at the end.
    pub open spec fn request(
        self,
        name: String,
        package_type: PackageType,
        cell: ResultCell<Package>,
        now: u64,
    ) -> ManagerView {
        if self.is_loading(name@) || self.is_queued(name@) {
            self
        } else if self.can_admit() {
            ManagerView {
                in_flight: self.in_flight.push(
                    PackageInfoTask {
                        package_name: name,
                        package_type,
                        result: cell,
                        started_at: now,
                    },
                ),
                ..self
            }
        } else {
            ManagerView { pending: self.pending.push((name, package_type)), ..self }
        }
    }

    /// How many entries a drain of up to `count` takes.
    pub open spec fn drain_len(self, count: nat) -> nat {
        if count <= self.pending.len() {
            count
        } else {
            self.pending.len()
        }
    }

    /// What a drain of up to `count` hands out: the front of the queue.
    pub open spec fn drained(self, count: nat) -> Seq<(String, PackageType)> {
        self.pending.take(self.drain_len(count) as int)
    }

    /// The state after a drain of up to `count`.
    pub open spec fn drain(self, count: nat) -> ManagerView {
        ManagerView { pending: self.pending.skip(self.drain_len(count) as int), ..self }
    }

    /// What a poll at `now` that saw `singles` and `details` makes of the
    /// state: `post` is the state after it and `result` what it hands out.
    pub open spec fn poll_post(
        self,
        now: u64,
        singles: Seq<Option<Completion>>,
        details: Seq<CellRead<Package>>,
        post: ManagerView,
        result: TaskResultView,
    ) -> bool {
        let kept = kept_in_flight(self.in_flight, now, details);
        let n = admitted(kept.len(), self.pending.len());
        let finished = finished_details(self.in_flight, now, details, self.in_flight.len());
        let started = result.started_package_info_loads;
        &&& post.active == kept_active(self.active, singles)
        &&& post.in_flight == kept + launched_tasks(started, now)
        &&& post.pending == self.pending.skip(n as int)
        &&& started.len() == n
        &&& forall|i: int|
            0 <= i < n ==> (#[trigger] started[i]).package_name == self.pending[i].0 && started[i].package_type
                == self.pending[i].1
        &&& result == TaskResultView {
            package_info: finished,
            completed_package_info_loads: finished_names(finished),
            started_package_info_loads: started,
            ..gathered(self.active, singles, self.active.len())
        }
    }
}


/// Whether a lookup started at `started_at` has run out of time at `now`.
pub fn has_timed_out(started_at: u64, now: u64) -> (late: bool)
    ensures
        late == timed_out(started_at, now),
{
    now > started_at && now - started_at > PACKAGE_INFO_TIMEOUT_MS
}

/// Whether a task of the given kind can complete with `done`.
pub fn fits_kind(done: &Completion, kind: TaskKind) -> (fits: bool)
    ensures
        fits == done.fits(kind),
{
    let lists = match kind {
        TaskKind::LoadInstalled => true,
        TaskKind::LoadOutdated => true,
        TaskKind::Search => true,
        _ => false,
    };
    let services = match kind {
        TaskKind::LoadServices => true,
        _ => false,
    };
    let lookup = match kind {
        TaskKind::LoadPackageInfo => true,
        _ => false,
    };
    match done {
        Completion::Packages { .. } => lists,
        Completion::Services { .. } => services,
        Completion::Outcome { .. } => !lists && !services && !lookup,
    }
}

impl TaskResult {
    /// The result of a poll in which nothing happened.
    pub fn new() -> (result: Self)
        ensures
            result@ == TaskResultView::empty(),
    {
        TaskResult {
            installed_packages: None,
            outdated_packages: None,
            search_results: None,
            package_info: Vec::new(),
            logs: Vec::new(),
            completed_package_info_loads: Vec::new(),
            install_completed: None,
            uninstall_completed: None,
            update_completed: None,
            update_all_completed: None,
            clean_cache_completed: None,
            cleanup_old_versions_completed: None,
            pin_completed: None,
            unpin_completed: None,
            services: None,
            start_service_completed: None,
            stop_service_completed: None,
            restart_service_completed: None,
            export_packages_completed: None,
            import_packages_completed: None,
            started_package_info_loads: Vec::new(),
        }
    }

    /// Whether nothing happened in the poll that gave this result.
    pub fn is_empty(&self) -> (empty: bool)
        ensures
            empty == (self@ == TaskResultView::empty()),
    {
        let empty = self.installed_packages.is_none() && self.outdated_packages.is_none()
            && self.search_results.is_none() && self.package_info.len() == 0 && self.logs.len()
            == 0 && self.completed_package_info_loads.len() == 0
            && self.install_completed.is_none() && self.uninstall_completed.is_none()
            && self.update_completed.is_none() && self.update_all_completed.is_none()
            && self.clean_cache_completed.is_none()
            && self.cleanup_old_versions_completed.is_none() && self.pin_completed.is_none()
            && self.unpin_completed.is_none() && self.services.is_none()
            && self.start_service_completed.is_none() && self.stop_service_completed.is_none()
            && self.restart_service_completed.is_none()
            && self.export_packages_completed.is_none()
            && self.import_packages_completed.is_none()
            && self.started_package_info_loads.len() == 0;
        proof {
            if empty {
                assert(self@.package_info =~= Seq::empty());
                assert(self@.logs =~= Seq::empty());
                assert(self@.completed_package_info_loads =~= Seq::empty());
                assert(self@.started_package_info_loads =~= Seq::empty());
            }
        }
        empty
    }

    /// Merges one completed singleton task into the result.
    fn absorb(&mut self, task: AsyncTask, done: Completion)
        ensures
            final(self)@ == old(self)@.absorb(task, done),
    {
        match done {
            Completion::Packages { packages, logs } => {
                let mut lines = logs;
                match task {
                    AsyncTask::LoadInstalled { .. } => {
                        self.installed_packages = Some(packages);
                        self.logs.append(&mut lines);
                    },
                    AsyncTask::LoadOutdated { .. } => {
                        self.outdated_packages = Some(packages);
                        self.logs.append(&mut lines);
                    },
                    AsyncTask::Search { .. } => {
                        self.search_results = Some(packages);
                        self.logs.append(&mut lines);
                    },
                    _ => {},
                }
            },
            Completion::Outcome { success, message, logs } => {
                let mut lines = logs;
                match task {
                    AsyncTask::Install { .. } => {
                        self.install_completed = Some((success, message));
                        self.logs.append(&mut lines);
                    },
                    AsyncTask::Uninstall { .. } => {
                        self.uninstall_completed = Some((success, message));
                        self.logs.append(&mut lines);
                    },
                    AsyncTask::Update { .. } => {
                        self.update_completed = Some((success, message));
                        self.logs.append(&mut lines);
                    },
                    AsyncTask::UpdateAll { .. } => {
                        self.update_all_completed = Some((success, message));
                        self.logs.append(&mut lines);
                    },
                    AsyncTask::CleanCache { .. } => {
                        self.clean_cache_completed = Some((success, message));
                        self.logs.append(&mut lines);
                    },
                    AsyncTask::CleanupOldVersions { .. } => {
                        self.cleanup_old_versions_completed = Some((success, message));
                        self.logs.append(&mut lines);
                    },
                    AsyncTask::Pin { package_name, .. } => {
                        self.pin_completed = Some((package_name, success, message));
                        self.logs.append(&mut lines);
                    },
                    AsyncTask::Unpin { package_name, .. } => {
                        self.unpin_completed = Some((package_name, success, message));
                        self.logs.append(&mut lines);
                    },
                    AsyncTask::StartService { service_name, .. } => {
                        self.start_service_completed = Some((service_name, success, message));
                        self.logs.append(&mut lines);
                    },
                    AsyncTask::StopService { service_name, .. } => {
                        self.stop_service_completed = Some((service_name, success, message));
                        self.logs.append(&mut lines);
                    },
                    AsyncTask::RestartService { service_name, .. } => {
                        self.restart_service_completed = Some((service_name, success, message));
                        self.logs.append(&mut lines);
                    },
                    AsyncTask::ExportPackages { .. } => {
                        self.export_packages_completed = Some((success, message));
                        self.logs.append(&mut lines);
                    },
                    AsyncTask::ImportPackages { .. } => {
                        self.import_packages_completed = Some((success, message));
                        self.logs.append(&mut lines);
                    },
                    _ => {},
                }
            },
            Completion::Services { services, logs } => {
                let mut lines = logs;
                match task {
                    AsyncTask::LoadServices { .. } => {
                        self.services = Some(services);
                        self.logs.append(&mut lines);
                    },
                    _ => {},
                }
            },
        }
    }
}

/// Takes the reading for the singleton task at place `i` out of the list.
fn take_single(singles: &mut Vec<Option<Completion>>, i: usize) -> (reading: Option<Completion>)
    ensures
        reading == single_at(old(singles)@, i as int),
        final(singles)@.len() == old(singles)@.len(),
        forall|j: int|
            0 <= j < old(singles)@.len() && j != i ==> final(singles)@[j] == old(singles)@[j],
{
    if i < singles.len() {
        singles[i].take()
    } else {
        None
    }
}

/// Takes the reading for the lookup at place `i` out of the list.
fn take_detail(details: &mut Vec<CellRead<Package>>, i: usize) -> (reading: CellRead<Package>)
    ensures
        reading == detail_at(old(details)@, i as int),
        final(details)@.len() == old(details)@.len(),
        forall|j: int|
            0 <= j < old(details)@.len() && j != i ==> final(details)@[j] == old(details)@[j],
{
    let mut reading = CellRead::Empty;
    if i < details.len() {
        core::mem::swap(&mut details[i], &mut reading);
    }
    reading
}

/// Settles the singleton tasks from their readings: a task whose reading is
/// a completion of its kind is merged into `result`; the others are kept, in
/// their order.
fn settle_singles(
    tasks: Vec<AsyncTask>,
    singles: Vec<Option<Completion>>,
    result: &mut TaskResult,
) -> (kept: Vec<AsyncTask>)
    requires
        old(result)@ == TaskResultView::empty(),
    ensures
        kept@ == kept_active(tasks@, singles@),
        final(result)@ == gathered(tasks@, singles@, tasks@.len()),
{
    let mut singles = singles;
    let mut kept: Vec<AsyncTask> = Vec::new();
    let ghost all = tasks@;
    let ghost readings = singles@;
    let mut i: usize = 0;
    assert(tasks.len() <= usize::MAX);
    for task in it: tasks
        invariant
            it.seq() == all,
            i == it.index(),
            all.len() <= usize::MAX,
            singles@.len() == readings.len(),
            forall|j: int| i <= j < readings.len() ==> singles@[j] == readings[j],
            kept@ == keep_where(all.take(i as int), stays_active(all, readings)),
            result@ == gathered(all, readings, i as nat),
    {
        let reading = take_single(&mut singles, i);
        proof {
            lemma_keep_where_step(all, stays_active(all, readings), i as int);
        }
        let done = match reading {
            Some(done) => if fits_kind(&done, task.kind()) {
                Some(done)
            } else {
                None
            },
            None => None,
        };
        match done {
            Some(done) => {
                result.absorb(task, done);
            },
            None => {
                kept.push(task);
            },
        }
        i = i + 1;
    }
    proof {
        assert(all.take(all.len() as int) =~= all);
    }
    kept
}

/// Settles the lookups in flight from their readings at `now`: one that has
/// timed out ends as failed; one whose cell holds a record ends with it; the
/// others are kept, in their order.
fn settle_details(
    tasks: Vec<PackageInfoTask>,
    now: u64,
    details: Vec<CellRead<Package>>,
    result: &mut TaskResult,
) -> (kept: Vec<PackageInfoTask>)
    requires
        old(result)@.package_info == Seq::<(String, Package)>::empty(),
        old(result)@.completed_package_info_loads == Seq::<String>::empty(),
    ensures
        kept@ == kept_in_flight(tasks@, now, details@),
        final(result)@ == (TaskResultView {
            package_info: finished_details(tasks@, now, details@, tasks@.len()),
            completed_package_info_loads: finished_names(
                finished_details(tasks@, now, details@, tasks@.len()),
            ),
            ..old(result)@
        }),
{
    let mut details = details;
    let mut kept: Vec<PackageInfoTask> = Vec::new();
    let ghost all = tasks@;
    let ghost readings = details@;
    let ghost base = result@;
    let mut i: usize = 0;
    assert(tasks.len() <= usize::MAX);
    assert(finished_names(finished_details(all, now, readings, 0)) =~= Seq::empty());
    for task in it: tasks
        invariant
            it.seq() == all,
            i == it.index(),
            all.len() <= usize::MAX,
            details@.len() == readings.len(),
            forall|j: int| i <= j < readings.len() ==> details@[j] == readings[j],
            kept@ == keep_where(all.take(i as int), stays_in_flight(all, now, readings)),
            result@ == (TaskResultView {
                package_info: finished_details(all, now, readings, i as nat),
                completed_package_info_loads: finished_names(
                    finished_details(all, now, readings, i as nat),
                ),
                ..base
            }),
    {
        let reading = take_detail(&mut details, i);
        proof {
            lemma_keep_where_step(all, stays_in_flight(all, now, readings), i as int);
        }
        let ghost before = finished_details(all, now, readings, i as nat);
        let record = if has_timed_out(task.started_at, now) {
            Some(
                Package::new(task.package_name.clone(), task.package_type).set_version_load_failed(
                    true,
                ),
            )
        } else {
            match reading {
                CellRead::Ready(record) => Some(record),
                _ => None,
            }
        };
        assert(record == detail_result(task, now, detail_at(readings, i as int)));
        match record {
            Some(record) => {
                result.completed_package_info_loads.push(task.package_name.clone());
                result.package_info.push((task.package_name, record));
                proof {
                    let after = finished_details(all, now, readings, (i + 1) as nat);
                    assert(after == before.push((task.package_name, record)));
                    assert(finished_names(after) =~= finished_names(before).push(
                        task.package_name,
                    ));
                }
            },
            None => {
                kept.push(task);
            },
        }
        i = i + 1;
    }
    proof {
        assert(all.take(all.len() as int) =~= all);
    }
    kept
}

/// Tops the lookups in flight up from the front of the queue, as far as
/// slots are free, and hands out the worker's side of each lookup admitted.
fn replenish(
    in_flight: &mut Vec<PackageInfoTask>,
    pending: &mut Vec<(String, PackageType)>,
    now: u64,
) -> (started: Vec<PackageInfoLaunch>)
    ensures
        started@.len() == admitted(old(in_flight)@.len(), old(pending)@.len()),
        final(in_flight)@ == old(in_flight)@ + launched_tasks(started@, now),
        final(pending)@ == old(pending)@.skip(started@.len() as int),
        forall|i: int|
            0 <= i < started@.len() ==> (#[trigger] started@[i]).package_name == old(pending)@[i].0
                && started@[i].package_type == old(pending)@[i].1,
{
    let mut started: Vec<PackageInfoLaunch> = Vec::new();
    let ghost before = in_flight@;
    let ghost queue = pending@;
    if in_flight.len() >= MAX_CONCURRENT_PACKAGE_INFO {
        assert(in_flight@ =~= before + launched_tasks(started@, now));
        assert(pending@ =~= queue.skip(0));
        return started;
    }
    let free = MAX_CONCURRENT_PACKAGE_INFO - in_flight.len();
    let n = if pending.len() <= free {
        pending.len()
    } else {
        free
    };
    let mut front = pending.split_off(n);
    core::mem::swap(pending, &mut front);
    assert(pending@ =~= queue.skip(n as int));
    assert(front@ =~= queue.take(n as int));
    let ghost head = front@;
    for entry in it: front
        invariant
            it.seq() == head,
            head == queue.take(n as int),
            n <= queue.len(),
            started@.len() == it.index(),
            in_flight@ == before + launched_tasks(started@, now),
            forall|i: int|
                0 <= i < started@.len() ==> (#[trigger] started@[i]).package_name == queue[i].0
                    && started@[i].package_type == queue[i].1,
    {
        let (name, package_type) = entry;
        let cell: ResultCell<Package> = ResultCell::new();
        let worker = cell.share();
        let ghost earlier = started@;
        in_flight.push(
            PackageInfoTask {
                package_name: name.clone(),
                package_type,
                result: cell,
                started_at: now,
            },
        );
        started.push(PackageInfoLaunch { package_name: name, package_type, result: worker });
        assert(launched_tasks(started@, now) =~= launched_tasks(earlier, now).push(
            in_flight@.last(),
        ));
        assert(in_flight@ =~= before + launched_tasks(started@, now));
    }
    started
}

/// The coordinator of background work.
pub struct AsyncTaskManager {
    active_tasks: Vec<AsyncTask>,
    package_info_tasks: Vec<PackageInfoTask>,
    pending_package_info_loads: Vec<(String, PackageType)>,
}

impl View for AsyncTaskManager {
    type V = ManagerView;

    closed spec fn view(&self) -> ManagerView {
        ManagerView {
            active: self.active_tasks@,
            in_flight: self.package_info_tasks@,
            pending: self.pending_package_info_loads@,
        }
    }
}


impl AsyncTaskManager {
    /// A coordinator with nothing outstanding.
    pub fn new() -> (manager: Self)
        ensures
            manager@.is_idle(),
            manager@.wf(),
    {
        AsyncTaskManager {
            active_tasks: Vec::new(),
            package_info_tasks: Vec::new(),
            pending_package_info_loads: Vec::new(),
        }
    }

    /// Whether a singleton task of the given kind is outstanding.
    pub fn has_task_kind(&self, kind: TaskKind) -> (found: bool)
        ensures
            found == self@.has_kind(kind),
    {
        let mut i: usize = 0;
        while i < self.active_tasks.len()
            invariant
                i <= self.active_tasks@.len(),
                forall|j: int| 0 <= j < i ==> (#[trigger] self.active_tasks@[j]).kind_spec() != kind,
            decreases self.active_tasks@.len() - i,
        {
            if self.active_tasks[i].kind() == kind {
                assert(self@.active[i as int].kind_spec() == kind);
                return true;
            }
            i = i + 1;
        }
        false
    }

    /// Whether a singleton task of the kind that goes by `task_type` is
    /// outstanding. A name that no kind goes by gives `false`.
    pub fn has_task_type(&self, task_type: &str) -> (found: bool)
        ensures
            found == (TaskKind::named(task_type@) matches Some(kind) && self@.has_kind(kind)),
    {
        match TaskKind::from_name(task_type) {
            Some(kind) => self.has_task_kind(kind),
            None => false,
        }
    }

    /// Whether a lookup by this name is in flight.
    pub fn is_loading_package_info(&self, package_name: &str) -> (loading: bool)
        ensures
            loading == self@.is_loading(package_name@),
    {
        let mut i: usize = 0;
        while i < self.package_info_tasks.len()
            invariant
                i <= self.package_info_tasks@.len(),
                forall|j: int|
                    0 <= j < i ==> (#[trigger] self.package_info_tasks@[j]).package_name@
                        != package_name@,
            decreases self.package_info_tasks@.len() - i,
        {
            if same_text(self.package_info_tasks[i].package_name.as_str(), package_name) {
                assert(self@.in_flight[i as int].package_name@ == package_name@);
                return true;
            }
            i = i + 1;
        }
        false
    }

    /// Whether a lookup by this name waits in the queue.
    pub fn is_package_info_queued(&self, package_name: &str) -> (queued: bool)
        ensures
            queued == self@.is_queued(package_name@),
    {
        let mut i: usize = 0;
        while i < self.pending_package_info_loads.len()
            invariant
                i <= self.pending_package_info_loads@.len(),
                forall|j: int|
                    0 <= j < i ==> (#[trigger] self.pending_package_info_loads@[j]).0@
                        != package_name@,
            decreases self.pending_package_info_loads@.len() - i,
        {
            if same_text(self.pending_package_info_loads[i].0.as_str(), package_name) {
                assert(self@.pending[i as int].0@ == package_name@);
                return true;
            }
            i = i + 1;
        }
        false
    }

    /// Whether a slot for one more lookup is free.
    pub fn can_load_more_package_info(&self) -> (free: bool)
        ensures
            free == self@.can_admit(),
    {
        self.package_info_tasks.len() < MAX_CONCURRENT_PACKAGE_INFO
    }

    /// How many lookups wait in the queue.
    pub fn pending_loads_count(&self) -> (count: usize)
        ensures
            count == self@.pending.len(),
    {
        self.pending_package_info_loads.len()
    }

    /// How many lookups are in flight.
    pub fn loading_count(&self) -> (count: usize)
        ensures
            count == self@.in_flight.len(),
    {
        self.package_info_tasks.len()
    }

    /// How many singleton tasks are outstanding.
    pub fn active_count(&self) -> (count: usize)
        ensures
            count == self@.active.len(),
    {
        self.active_tasks.len()
    }

    /// Puts a lookup in flight if it is admitted, and says whether it was.
    fn launch(&mut self, task: PackageInfoTask) -> (accepted: bool)
        requires
            old(self)@.wf(),
        ensures
            accepted == old(self)@.admits(task.package_name@),
            final(self)@ == old(self)@.launch(task),
            final(self)@.wf(),
    {
        if self.is_loading_package_info(task.package_name.as_str())
            || self.is_package_info_queued(task.package_name.as_str())
            || !self.can_load_more_package_info() {
            return false;
        }
        proof {
            lemma_admitted_lookup_keeps_wf(self@, task);
        }
        self.package_info_tasks.push(task);
        true
    }

    /// Submits a task. A singleton task is recorded as outstanding unless
    /// one of its kind is outstanding already, in which case it is dropped.
    /// A lookup is put in flight if it neither runs nor waits and a slot is
    /// free, and dropped otherwise.
    pub fn set_active_task(&mut self, task: AsyncTask)
        requires
            old(self)@.wf(),
        ensures
            final(self)@ == old(self)@.submit(task),
            final(self)@.wf(),
    {
        match task {
            AsyncTask::LoadPackageInfo { package_name, package_type, result, started_at } => {
                self.launch(PackageInfoTask { package_name, package_type, result, started_at });
            },
            other => {
                if !self.has_task_kind(other.kind()) {
                    proof {
                        lemma_new_kind_keeps_wf(self@, other);
                    }
                    self.active_tasks.push(other);
                }
            },
        }
    }

    /// Hands in a lookup to start at once. It is accepted, and then in
    /// flight, exactly when `task` is a lookup for `package_name` that
    /// neither runs nor waits and a slot is free; else nothing changes and
    /// the caller must not start it.
    pub fn add_package_info_task(&mut self, package_name: String, task: AsyncTask) -> (accepted: bool)
        requires
            old(self)@.wf(),
        ensures
            accepted == (task matches AsyncTask::LoadPackageInfo { package_name: name, .. }
                && name@ == package_name@ && old(self)@.admits(package_name@)),
            final(self)@ == if accepted {
                old(self)@.submit(task)
            } else {
                old(self)@
            },
            final(self)@.wf(),
    {
        match task {
            AsyncTask::LoadPackageInfo { package_name: name, package_type, result, started_at } => {
                if same_text(name.as_str(), package_name.as_str()) {
                    self.launch(
                        PackageInfoTask { package_name: name, package_type, result, started_at },
                    )
                } else {
                    false
                }
            },
            _ => false,
        }
    }

    /// Puts a lookup at the end of the queue unless it runs or waits already.
    pub fn queue_package_info_load(&mut self, package_name: String, package_type: PackageType)
        requires
            old(self)@.wf(),
        ensures
            final(self)@ == old(self)@.enqueue(package_name, package_type),
            final(self)@.wf(),
    {
        if self.is_loading_package_info(package_name.as_str()) {
            return ;
        }
        if self.is_package_info_queued(package_name.as_str()) {
            return ;
        }
        proof {
            lemma_new_entry_keeps_wf(self@, package_name, package_type);
        }
        self.pending_package_info_loads.push((package_name, package_type));
    }

    /// Requests package info at `now`. Nothing changes if the lookup runs or
    /// waits already. If a slot is free the lookup is put in flight with a
    /// new cell and `now` as its start, and the caller gets the worker's side
    /// to start it. Else it waits at the end of the queue.
    pub fn request_package_info(
        &mut self,
        package_name: String,
        package_type: PackageType,
        now: u64,
    ) -> (outcome: LoadRequest)
        requires
            old(self)@.wf(),
        ensures
            final(self)@.wf(),
            match outcome {
                LoadRequest::AlreadyLoading => old(self)@.is_loading(package_name@) && final(self)@
                    == old(self)@,
                LoadRequest::AlreadyQueued => !old(self)@.is_loading(package_name@) && old(
                    self,
                )@.is_queued(package_name@) && final(self)@ == old(self)@,
                LoadRequest::Started(launch) => old(self)@.admits(package_name@)
                    && launch.package_name == package_name && launch.package_type == package_type
                    && final(self)@ == old(self)@.request(
                    package_name,
                    package_type,
                    launch.result,
                    now,
                ),
                LoadRequest::Queued => !old(self)@.is_loading(package_name@) && !old(
                    self,
                )@.is_queued(package_name@) && !old(self)@.can_admit() && final(self)@ == old(
                    self,
                )@.enqueue(package_name, package_type),
            },
    {
        if self.is_loading_package_info(package_name.as_str()) {
            return LoadRequest::AlreadyLoading;
        }
        if self.is_package_info_queued(package_name.as_str()) {
            return LoadRequest::AlreadyQueued;
        }
        if self.can_load_more_package_info() {
            let cell: ResultCell<Package> = ResultCell::new();
            let worker = cell.share();
            proof {
                lemma_admitted_lookup_keeps_wf(
                    self@,
                    PackageInfoTask {
                        package_name,
                        package_type,
                        result: cell,
                        started_at: now,
                    },
                );
            }
            self.package_info_tasks.push(
                PackageInfoTask {
                    package_name: package_name.clone(),
                    package_type,
                    result: cell,
                    started_at: now,
                },
            );
            LoadRequest::Started(
                PackageInfoLaunch { package_name, package_type, result: worker },
            )
        } else {
            proof {
                lemma_new_entry_keeps_wf(self@, package_name, package_type);
            }
            self.pending_package_info_loads.push((package_name, package_type));
            LoadRequest::Queued
        }
    }

    /// Takes up to `count` lookups from the front of the queue, first come
    /// first, for the caller to start.
    pub fn drain_pending_loads(&mut self, count: usize) -> (batch: Vec<(String, PackageType)>)
        requires
            old(self)@.wf(),
        ensures
            batch@ == old(self)@.drained(count as nat),
            final(self)@ == old(self)@.drain(count as nat),
            final(self)@.wf(),
    {
        let n = if count <= self.pending_package_info_loads.len() {
            count
        } else {
            self.pending_package_info_loads.len()
        };
        let mut batch = self.pending_package_info_loads.split_off(n);
        core::mem::swap(&mut self.pending_package_info_loads, &mut batch);
        proof {
            let queue = old(self)@.pending;
            assert(batch@ =~= queue.take(n as int));
            assert(self@.pending =~= queue.skip(n as int));
        }
        batch
    }

    /// One non-blocking look at the cells of every outstanding task. What
    /// the cells show depends on the workers: the contract says what holds
    /// of every outcome.
    pub fn observe(&self) -> (readings: PollReadings)
        ensures
            readings.singles@.len() == self@.active.len(),
            readings.details@.len() == self@.in_flight.len(),
            forall|i: int|
                0 <= i < readings.singles@.len() ==> ((#[trigger] readings.singles@[i]) matches Some(
                    done,
                ) ==> done.fits(self@.active[i].kind_spec()) && done.logs().len() > 0),
    {
        let mut singles: Vec<Option<Completion>> = Vec::new();
        let mut i: usize = 0;
        while i < self.active_tasks.len()
            invariant
                i <= self.active_tasks@.len(),
                singles@.len() == i,
                forall|j: int|
                    0 <= j < i ==> ((#[trigger] singles@[j]) matches Some(done) ==> done.fits(
                        self.active_tasks@[j].kind_spec(),
                    ) && done.logs().len() > 0),
            decreases self.active_tasks@.len() - i,
        {
            singles.push(self.active_tasks[i].poll_one());
            i = i + 1;
        }
        let mut details: Vec<CellRead<Package>> = Vec::new();
        let mut k: usize = 0;
        while k < self.package_info_tasks.len()
            invariant
                k <= self.package_info_tasks@.len(),
                details@.len() == k,
            decreases self.package_info_tasks@.len() - k,
        {
            details.push(self.package_info_tasks[k].result.try_read());
            k = k + 1;
        }
        PollReadings { singles, details }
    }

    /// Settles the outstanding tasks at `now` from one look at their cells.
    ///
    /// A singleton task whose reading is a completion of its kind leaves the
    /// outstanding set and its payload and log lines enter the result. A
    /// lookup that has timed out ends as failed, whatever its cell holds; one
    /// whose cell holds a record ends with it; the others stay in flight.
    /// Then lookups leave the front of the queue for the free slots, each
    /// with a new cell and `now` as its start, and the result hands their
    /// worker's sides out. A task without a reading stays as it is.
    pub fn apply(&mut self, now: u64, readings: PollReadings) -> (result: TaskResult)
        requires
            old(self)@.wf(),
        ensures
            old(self)@.poll_post(now, readings.singles@, readings.details@, final(self)@, result@),
            final(self)@.wf(),
    {
        let PollReadings { singles, details } = readings;
        let mut result = TaskResult::new();
        let mut active: Vec<AsyncTask> = Vec::new();
        core::mem::swap(&mut self.active_tasks, &mut active);
        let mut in_flight: Vec<PackageInfoTask> = Vec::new();
        core::mem::swap(&mut self.package_info_tasks, &mut in_flight);
        let kept_singles = settle_singles(active, singles, &mut result);
        proof {
            lemma_gathered_holds_no_lookups(active@, singles@, active@.len());
        }
        let mut kept_details = settle_details(in_flight, now, details, &mut result);
        let started = replenish(&mut kept_details, &mut self.pending_package_info_loads, now);
        result.started_package_info_loads = started;
        self.active_tasks = kept_singles;
        self.package_info_tasks = kept_details;
        proof {
            lemma_poll_keeps_wf(
                old(self)@,
                now,
                readings.singles@,
                readings.details@,
                self@,
                result@,
            );
        }
        result
    }

    /// One frame's poll at `now`: looks at the cells of every outstanding
    /// task without waiting and settles the tasks from what it saw. What it
    /// saw depends on the workers; whatever it was, the outcome is the one
    /// that [`ManagerView::poll_post`] gives for it.
    pub fn poll(&mut self, now: u64) -> (result: TaskResult)
        requires
            old(self)@.wf(),
        ensures
            final(self)@.wf(),
            exists|singles: Seq<Option<Completion>>, details: Seq<CellRead<Package>>|
                #[trigger] old(self)@.poll_post(now, singles, details, final(self)@, result@),
            old(self)@.is_idle() ==> final(self)@ == old(self)@ && result@
                == TaskResultView::empty(),
    {
        let readings = self.observe();
        let ghost singles = readings.singles@;
        let ghost details = readings.details@;
        let result = self.apply(now, readings);
        proof {
            if old(self)@.is_idle() {
                lemma_idle_poll_is_empty(old(self)@, now, singles, details, self@, result@);
            }
        }
        result
    }
}

/// Singleton tasks bring in no records of lookups and start none.
proof fn lemma_gathered_holds_no_lookups(
    tasks: Seq<AsyncTask>,
    singles: Seq<Option<Completion>>,
    n: nat,
)
    ensures
        gathered(tasks, singles, n).package_info == Seq::<(String, Package)>::empty(),
        gathered(tasks, singles, n).completed_package_info_loads == Seq::<String>::empty(),
        gathered(tasks, singles, n).started_package_info_loads == Seq::<
            PackageInfoLaunch,
        >::empty(),
    decreases n,
{
    if n > 0 {
        lemma_gathered_holds_no_lookups(tasks, singles, (n - 1) as nat);
    }
}

/// A lookup that is admitted keeps the invariant when it is put in flight.
proof fn lemma_admitted_lookup_keeps_wf(pre: ManagerView, task: PackageInfoTask)
    requires
        pre.wf(),
        pre.admits(task.package_name@),
    ensures
        (ManagerView { in_flight: pre.in_flight.push(task), ..pre }).wf(),
{
    let post = ManagerView { in_flight: pre.in_flight.push(task), ..pre };
    let last = pre.in_flight.len() as int;
    assert forall|i: int, j: int| 0 <= i < j < post.in_flight.len() implies (
    #[trigger] post.in_flight[i]).package_name@ != (#[trigger] post.in_flight[j]).package_name@ by {
        assert(post.in_flight[i] == pre.in_flight[i]);
        if j < last {
            assert(post.in_flight[j] == pre.in_flight[j]);
        }
    }
    assert forall|i: int, j: int|
        0 <= i < post.in_flight.len() && 0 <= j < post.pending.len() implies (
    #[trigger] post.in_flight[i]).package_name@ != (#[trigger] post.pending[j]).0@ by {
        if i < last {
            assert(post.in_flight[i] == pre.in_flight[i]);
        } else {
            assert(pre.pending[j].0@ != task.package_name@);
        }
    }
}

/// A singleton task of a kind that is not outstanding keeps the invariant
/// when it is recorded.
proof fn lemma_new_kind_keeps_wf(pre: ManagerView, task: AsyncTask)
    requires
        pre.wf(),
        task.kind_spec().is_singleton(),
        !pre.has_kind(task.kind_spec()),
    ensures
        (ManagerView { active: pre.active.push(task), ..pre }).wf(),
{
    let post = ManagerView { active: pre.active.push(task), ..pre };
    let last = pre.active.len() as int;
    assert forall|i: int| 0 <= i < post.active.len() implies (
    #[trigger] post.active[i]).kind_spec().is_singleton() by {
        if i < last {
            assert(post.active[i] == pre.active[i]);
        }
    }
    assert forall|i: int, j: int| 0 <= i < j < post.active.len() implies (
    #[trigger] post.active[i]).kind_spec() != (#[trigger] post.active[j]).kind_spec() by {
        assert(post.active[i] == pre.active[i]);
        if j < last {
            assert(post.active[j] == pre.active[j]);
        }
    }
}

/// A lookup that neither runs nor waits keeps the invariant when it is put
/// at the end of the queue.
proof fn lemma_new_entry_keeps_wf(pre: ManagerView, name: String, package_type: PackageType)
    requires
        pre.wf(),
        !pre.is_loading(name@),
        !pre.is_queued(name@),
    ensures
        (ManagerView { pending: pre.pending.push((name, package_type)), ..pre }).wf(),
{
    let post = ManagerView { pending: pre.pending.push((name, package_type)), ..pre };
    let last = pre.pending.len() as int;
    assert forall|i: int, j: int| 0 <= i < j < post.pending.len() implies (
    #[trigger] post.pending[i]).0@ != (#[trigger] post.pending[j]).0@ by {
        assert(post.pending[i] == pre.pending[i]);
        if j < last {
            assert(post.pending[j] == pre.pending[j]);
        }
    }
    assert forall|i: int, j: int|
        0 <= i < post.in_flight.len() && 0 <= j < post.pending.len() implies (
    #[trigger] post.in_flight[i]).package_name@ != (#[trigger] post.pending[j]).0@ by {
        if j < last {
            assert(post.pending[j] == pre.pending[j]);
        } else {
            assert(pre.in_flight[i].package_name@ != name@);
        }
    }
}

/// A poll keeps the invariant of the coordinator, whatever it saw: in
/// particular no more than `MAX_CONCURRENT_PACKAGE_INFO` lookups are in
/// flight after it.
pub proof fn lemma_poll_keeps_wf(
    pre: ManagerView,
    now: u64,
    singles: Seq<Option<Completion>>,
    details: Seq<CellRead<Package>>,
    post: ManagerView,
    result: TaskResultView,
)
    requires
        pre.wf(),
        pre.poll_post(now, singles, details, post, result),
    ensures
        post.wf(),
{
    let stay = stays_active(pre.active, singles);
    let from = lemma_keep_where_indices(pre.active, stay);
    assert forall|i: int| 0 <= i < post.active.len() implies (#[trigger] post.active[i]).kind_spec().is_singleton() by {
        assert(post.active[i] == pre.active[from[i]]);
    }
    assert forall|i: int, j: int| 0 <= i < j < post.active.len() implies (
    #[trigger] post.active[i]).kind_spec() != (#[trigger] post.active[j]).kind_spec() by {
        assert(post.active[i] == pre.active[from[i]]);
        assert(post.active[j] == pre.active[from[j]]);
        assert(from[i] < from[j]);
    }
    let fly = stays_in_flight(pre.in_flight, now, details);
    let kept = kept_in_flight(pre.in_flight, now, details);
    let at = lemma_keep_where_indices(pre.in_flight, fly);
    lemma_keep_where_all(pre.in_flight, fly);
    let started = result.started_package_info_loads;
    let fresh = launched_tasks(started, now);
    let n = admitted(kept.len(), pre.pending.len());
    assert(post.in_flight.len() == kept.len() + n);
    // Where each lookup in flight after the poll came from: a lookup that
    // stayed, or an entry at the front of the queue.
    assert forall|i: int| 0 <= i < post.in_flight.len() implies (if i < kept.len() {
        0 <= at[i] < pre.in_flight.len() && (#[trigger] post.in_flight[i]).package_name
            == pre.in_flight[at[i]].package_name
    } else {
        0 <= i - kept.len() < n && post.in_flight[i].package_name == pre.pending[i
            - kept.len()].0
    }) by {
        if i < kept.len() {
            assert(post.in_flight[i] == kept[i]);
            assert(kept[i] == pre.in_flight[at[i]]);
        } else {
            let k = i - kept.len();
            assert(post.in_flight[i] == fresh[k]);
            assert(fresh[k].package_name == started[k].package_name);
        }
    }
    assert forall|i: int, j: int| 0 <= i < j < post.in_flight.len() implies (
    #[trigger] post.in_flight[i]).package_name@ != (#[trigger] post.in_flight[j]).package_name@ by {
        if j < kept.len() {
            assert(at[i] < at[j]);
        } else if i < kept.len() {
            assert(pre.in_flight[at[i]].package_name@ != pre.pending[j - kept.len()].0@);
        } else {
            assert(pre.pending[i - kept.len()].0@ != pre.pending[j - kept.len()].0@);
        }
    }
    assert forall|i: int, j: int| 0 <= i < j < post.pending.len() implies (
    #[trigger] post.pending[i]).0@ != (#[trigger] post.pending[j]).0@ by {
        assert(post.pending[i] == pre.pending[i + n]);
        assert(post.pending[j] == pre.pending[j + n]);
    }
    assert forall|i: int, j: int|
        0 <= i < post.in_flight.len() && 0 <= j < post.pending.len() implies (
    #[trigger] post.in_flight[i]).package_name@ != (#[trigger] post.pending[j]).0@ by {
        assert(post.pending[j] == pre.pending[j + n]);
        if i < kept.len() {
            assert(pre.in_flight[at[i]].package_name@ != pre.pending[j + n].0@);
        } else {
            assert(pre.pending[i - kept.len()].0@ != pre.pending[j + n].0@);
        }
    }
}

/// A poll with nothing outstanding changes nothing and brings nothing in,
/// whenever it runs and whatever readings it is given.
pub proof fn lemma_idle_poll_is_empty(
    pre: ManagerView,
    now: u64,
    singles: Seq<Option<Completion>>,
    details: Seq<CellRead<Package>>,
    post: ManagerView,
    result: TaskResultView,
)
    requires
        pre.is_idle(),
        pre.poll_post(now, singles, details, post, result),
    ensures
        post == pre,
        result == TaskResultView::empty(),
{
    assert(post.active =~= pre.active);
    assert(post.in_flight =~= pre.in_flight);
    assert(post.pending =~= pre.pending);
    assert(result.started_package_info_loads =~= Seq::empty());
    assert(finished_names(Seq::<(String, Package)>::empty()) =~= Seq::empty());
}

} // verus!
