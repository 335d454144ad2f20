use brewsty::domain::entities::{Package, PackageType};
use brewsty::presentation::services::async_task::{
    log_signals_completion, settle_outcome, settle_packages, AsyncTask, Completion, TaskKind,
};
use brewsty::presentation::services::async_task_manager::{
    fits_kind, has_timed_out, AsyncTaskManager, LoadRequest, PollReadings, TaskResult,
    MAX_CONCURRENT_PACKAGE_INFO, PACKAGE_INFO_TIMEOUT_MS,
};
use brewsty::presentation::services::{CellRead, ResultCell};
use std::time::{Duration, Instant};

struct ListCells {
    packages: ResultCell<Vec<Package>>,
    logs: ResultCell<Vec<String>>,
}

struct OutcomeCells {
    success: ResultCell<bool>,
    logs: ResultCell<Vec<String>>,
    message: ResultCell<String>,
}

fn list_cells() -> ListCells {
    ListCells { packages: ResultCell::new(), logs: ResultCell::new() }
}

fn outcome_cells() -> OutcomeCells {
    OutcomeCells { success: ResultCell::new(), logs: ResultCell::new(), message: ResultCell::new() }
}

fn load_installed(cells: &ListCells) -> AsyncTask {
    AsyncTask::LoadInstalled { packages: cells.packages.share(), logs: cells.logs.share() }
}

fn install(cells: &OutcomeCells) -> AsyncTask {
    AsyncTask::Install {
        success: cells.success.share(),
        logs: cells.logs.share(),
        message: cells.message.share(),
    }
}

fn package(name: &str) -> Package {
    Package::new(name.to_string(), PackageType::Formula)
}

fn finish_list(cells: &ListCells, names: &[&str], line: &str) {
    assert!(cells.packages.write(names.iter().map(|n| package(n)).collect()));
    assert!(cells.logs.write(vec![line.to_string()]));
}

fn started(outcome: LoadRequest) -> ResultCell<Package> {
    match outcome {
        LoadRequest::Started(launch) => launch.result,
        _ => panic!("the lookup was not started"),
    }
}

#[test]
fn new_manager_is_idle() {
    let manager = AsyncTaskManager::new();
    assert_eq!(manager.active_count(), 0);
    assert_eq!(manager.loading_count(), 0);
    assert_eq!(manager.pending_loads_count(), 0);
    assert!(manager.can_load_more_package_info());
}

#[test]
fn idle_poll_is_empty_every_time() {
    let mut manager = AsyncTaskManager::new();
    for now in [0u64, 5, 20_000, u64::MAX] {
        let result = manager.poll(now);
        assert!(result.is_empty());
        assert_eq!(manager.active_count(), 0);
        assert_eq!(manager.loading_count(), 0);
        assert_eq!(manager.pending_loads_count(), 0);
    }
}

#[test]
fn duplicate_singleton_is_dropped() {
    let mut manager = AsyncTaskManager::new();
    let first = list_cells();
    let second = list_cells();
    manager.set_active_task(load_installed(&first));
    manager.set_active_task(load_installed(&second));
    assert_eq!(manager.active_count(), 1);
    assert!(manager.has_task_type("LoadInstalled"));

    // The second submission was dropped: its cells are not looked at.
    finish_list(&second, &["ignored"], "done");
    assert!(manager.poll(0).is_empty());
    assert_eq!(manager.active_count(), 1);

    finish_list(&first, &["wget", "curl"], "Loaded 2 installed formulae");
    let result = manager.poll(1);
    let installed = result.installed_packages.expect("the list has arrived");
    assert_eq!(installed.len(), 2);
    assert_eq!(installed[0].name, "wget");
    assert_eq!(installed[1].name, "curl");
    assert_eq!(result.logs, vec!["Loaded 2 installed formulae".to_string()]);
    assert_eq!(manager.active_count(), 0);
    assert!(!manager.has_task_type("LoadInstalled"));

    // Exactly one completion: every later poll is empty.
    for now in 2..10 {
        assert!(manager.poll(now).is_empty());
    }
}

#[test]
fn dedup_covers_every_singleton_kind() {
    let mut manager = AsyncTaskManager::new();
    let a = outcome_cells();
    let b = outcome_cells();
    manager.set_active_task(install(&a));
    manager.set_active_task(install(&b));
    assert_eq!(manager.active_count(), 1);
    assert!(manager.has_task_kind(TaskKind::Install));
    assert!(manager.has_task_type("Install"));
    assert!(!manager.has_task_type("Uninstall"));
    assert!(!manager.has_task_type("install"));
    assert!(!manager.has_task_type(""));

    // A task of another kind is recorded beside it.
    let c = outcome_cells();
    manager.set_active_task(AsyncTask::Uninstall {
        success: c.success.share(),
        logs: c.logs.share(),
        message: c.message.share(),
    });
    assert_eq!(manager.active_count(), 2);
}

#[test]
fn a_kind_may_be_submitted_again_once_it_completed() {
    let mut manager = AsyncTaskManager::new();
    let first = list_cells();
    manager.set_active_task(load_installed(&first));
    finish_list(&first, &[], "Finished loading installed packages");
    let result = manager.poll(0);
    assert_eq!(result.installed_packages.map(|p| p.len()), Some(0));
    let second = list_cells();
    manager.set_active_task(load_installed(&second));
    assert_eq!(manager.active_count(), 1);
}

#[test]
fn log_is_the_completion_signal() {
    let mut manager = AsyncTaskManager::new();
    let cells = list_cells();
    manager.set_active_task(load_installed(&cells));

    // The payload alone does not complete the task.
    assert!(cells.packages.write(vec![package("wget")]));
    assert!(manager.poll(0).is_empty());
    assert_eq!(manager.active_count(), 1);

    // Nor does a log without a line.
    assert!(cells.logs.write(Vec::new()));
    assert!(manager.poll(1).is_empty());
    assert_eq!(manager.active_count(), 1);

    assert!(cells.logs.write(vec!["done".to_string()]));
    let result = manager.poll(2);
    assert_eq!(result.installed_packages.map(|p| p.len()), Some(1));
    assert_eq!(manager.active_count(), 0);
}

#[test]
fn mutation_reports_flag_and_message() {
    let mut manager = AsyncTaskManager::new();
    let cells = outcome_cells();
    manager.set_active_task(install(&cells));
    assert!(cells.success.write(false));
    assert!(cells.message.write("a password is required".to_string()));
    assert!(manager.poll(0).is_empty());
    assert!(cells.logs.write(vec!["Error installing wget: a password is required".to_string()]));
    let result = manager.poll(1);
    assert_eq!(result.install_completed, Some((false, "a password is required".to_string())));
    assert_eq!(result.logs.len(), 1);
    assert!(result.uninstall_completed.is_none());
    assert!(!result.is_empty());
}

#[test]
fn pin_completion_names_its_package() {
    let mut manager = AsyncTaskManager::new();
    let cells = outcome_cells();
    manager.set_active_task(AsyncTask::Pin {
        package_name: "node".to_string(),
        success: cells.success.share(),
        logs: cells.logs.share(),
        message: cells.message.share(),
    });
    assert!(cells.success.write(true));
    assert!(cells.message.write("node pinned successfully".to_string()));
    assert!(cells.logs.write(vec!["Successfully pinned node".to_string()]));
    let result = manager.poll(0);
    assert_eq!(
        result.pin_completed,
        Some(("node".to_string(), true, "node pinned successfully".to_string()))
    );
    assert!(result.unpin_completed.is_none());
}

#[test]
fn several_kinds_complete_in_one_poll() {
    let mut manager = AsyncTaskManager::new();
    let installed = list_cells();
    let search = list_cells();
    let update = outcome_cells();
    manager.set_active_task(load_installed(&installed));
    manager.set_active_task(AsyncTask::Search {
        results: search.packages.share(),
        logs: search.logs.share(),
    });
    manager.set_active_task(AsyncTask::Update {
        success: update.success.share(),
        logs: update.logs.share(),
        message: update.message.share(),
    });
    finish_list(&installed, &["a"], "first");
    assert!(update.success.write(true));
    assert!(update.message.write("ok".to_string()));
    assert!(update.logs.write(vec!["third".to_string()]));
    let result = manager.poll(0);
    assert!(result.installed_packages.is_some());
    assert!(result.search_results.is_none());
    assert_eq!(result.update_completed, Some((true, "ok".to_string())));
    // Log lines come in the order of the tasks.
    assert_eq!(result.logs, vec!["first".to_string(), "third".to_string()]);
    assert_eq!(manager.active_count(), 1);
    assert!(manager.has_task_type("Search"));
}

#[test]
fn duplicate_request_is_merged() {
    let mut manager = AsyncTaskManager::new();
    let cell = started(manager.request_package_info("wget".to_string(), PackageType::Formula, 0));
    assert!(matches!(
        manager.request_package_info("wget".to_string(), PackageType::Formula, 1),
        LoadRequest::AlreadyLoading
    ));
    assert_eq!(manager.loading_count(), 1);
    assert_eq!(manager.pending_loads_count(), 0);
    assert!(manager.is_loading_package_info("wget"));
    assert!(!manager.is_loading_package_info("curl"));

    assert!(cell.write(package("wget").with_version("1.21".to_string())));
    let result = manager.poll(2);
    assert_eq!(result.package_info.len(), 1);
    assert_eq!(result.package_info[0].0, "wget");
    assert_eq!(result.package_info[0].1.version.as_deref(), Some("1.21"));
    assert_eq!(result.completed_package_info_loads, vec!["wget".to_string()]);
    assert!(!manager.is_loading_package_info("wget"));
    assert!(manager.poll(3).is_empty());
}

#[test]
fn at_most_fifteen_lookups_in_flight() {
    let mut manager = AsyncTaskManager::new();
    let mut cells: Vec<(String, ResultCell<Package>)> = Vec::new();
    for i in 0..40 {
        let name = format!("pkg{}", i);
        match manager.request_package_info(name.clone(), PackageType::Formula, 0) {
            LoadRequest::Started(launch) => {
                assert!(i < 15);
                cells.push((launch.package_name, launch.result));
            }
            LoadRequest::Queued => assert!(i >= 15),
            _ => panic!("a new name neither runs nor waits"),
        }
        assert!(manager.loading_count() <= MAX_CONCURRENT_PACKAGE_INFO);
    }
    assert_eq!(manager.loading_count(), 15);
    assert_eq!(manager.pending_loads_count(), 25);
    assert!(!manager.can_load_more_package_info());

    let mut done: Vec<String> = Vec::new();
    let mut now = 1u64;
    while done.len() < 40 {
        // Every lookup that is in flight answers.
        for (name, cell) in cells.drain(..) {
            assert!(cell.write(Package::new(name, PackageType::Formula)));
        }
        let result = manager.poll(now);
        assert!(manager.loading_count() <= MAX_CONCURRENT_PACKAGE_INFO);
        for (name, record) in result.package_info {
            assert_eq!(name, record.name);
            assert!(!record.version_load_failed);
            done.push(name);
        }
        for launch in result.started_package_info_loads {
            cells.push((launch.package_name, launch.result));
        }
        now += 1;
        assert!(now < 10, "the queue drains in three polls");
    }
    let expected: Vec<String> = (0..40).map(|i| format!("pkg{}", i)).collect();
    assert_eq!(done, expected);
    assert_eq!(manager.loading_count(), 0);
    assert_eq!(manager.pending_loads_count(), 0);
}

#[test]
fn twenty_requests_top_up_from_the_queue() {
    let mut manager = AsyncTaskManager::new();
    let mut cells: Vec<ResultCell<Package>> = Vec::new();
    for i in 0..20 {
        if let LoadRequest::Started(launch) =
            manager.request_package_info(format!("pkg{}", i), PackageType::Cask, 100)
        {
            cells.push(launch.result);
        }
    }
    let first = manager.poll(101);
    assert!(first.is_empty());
    assert_eq!(manager.loading_count(), 15);
    assert_eq!(manager.pending_loads_count(), 5);

    for (i, cell) in cells.iter().take(3).enumerate() {
        assert!(cell.write(Package::new(format!("pkg{}", i), PackageType::Cask)));
    }
    let second = manager.poll(102);
    assert_eq!(second.package_info.len(), 3);
    assert_eq!(second.started_package_info_loads.len(), 3);
    let admitted: Vec<&str> =
        second.started_package_info_loads.iter().map(|l| l.package_name.as_str()).collect();
    assert_eq!(admitted, vec!["pkg15", "pkg16", "pkg17"]);
    assert!(second.started_package_info_loads.iter().all(|l| l.package_type == PackageType::Cask));
    assert_eq!(manager.loading_count(), 15);
    assert_eq!(manager.pending_loads_count(), 2);

    // Four more complete: the queue is exhausted and a slot stays free.
    for (i, cell) in cells.iter().enumerate().skip(3).take(4) {
        assert!(cell.write(Package::new(format!("pkg{}", i), PackageType::Cask)));
    }
    let third = manager.poll(103);
    assert_eq!(third.package_info.len(), 4);
    let admitted: Vec<&str> =
        third.started_package_info_loads.iter().map(|l| l.package_name.as_str()).collect();
    assert_eq!(admitted, vec!["pkg18", "pkg19"]);
    assert_eq!(manager.loading_count(), 13);
    assert_eq!(manager.pending_loads_count(), 0);
    assert!(manager.can_load_more_package_info());
}

#[test]
fn a_started_lookup_writes_into_the_cell_that_is_polled() {
    let mut manager = AsyncTaskManager::new();
    for i in 0..15 {
        manager.request_package_info(format!("busy{}", i), PackageType::Formula, 0);
    }
    assert!(matches!(
        manager.request_package_info("late".to_string(), PackageType::Formula, 0),
        LoadRequest::Queued
    ));
    assert!(manager.is_package_info_queued("late"));
    assert!(matches!(
        manager.request_package_info("late".to_string(), PackageType::Formula, 0),
        LoadRequest::AlreadyQueued
    ));
    // The first fifteen time out, which frees every slot.
    let result = manager.poll(PACKAGE_INFO_TIMEOUT_MS + 1);
    assert_eq!(result.package_info.len(), 15);
    assert_eq!(result.started_package_info_loads.len(), 1);
    let launch = &result.started_package_info_loads[0];
    assert_eq!(launch.package_name, "late");
    assert!(launch.result.write(package("late").with_description("tardy".to_string())));
    let next = manager.poll(PACKAGE_INFO_TIMEOUT_MS + 2);
    assert_eq!(next.package_info.len(), 1);
    assert_eq!(next.package_info[0].1.description.as_deref(), Some("tardy"));
}

#[test]
fn queue_is_first_come_first_served() {
    let mut manager = AsyncTaskManager::new();
    for name in ["c", "a", "b", "a", "d"] {
        manager.queue_package_info_load(name.to_string(), PackageType::Formula);
    }
    assert_eq!(manager.pending_loads_count(), 4);
    let batch = manager.drain_pending_loads(3);
    let names: Vec<&str> = batch.iter().map(|(n, _)| n.as_str()).collect();
    assert_eq!(names, vec!["c", "a", "b"]);
    assert_eq!(manager.pending_loads_count(), 1);
    let rest = manager.drain_pending_loads(10);
    assert_eq!(rest.len(), 1);
    assert_eq!(rest[0].0, "d");
    assert!(manager.drain_pending_loads(5).is_empty());
    assert!(manager.drain_pending_loads(0).is_empty());
}

#[test]
fn queued_lookup_is_not_queued_while_in_flight() {
    let mut manager = AsyncTaskManager::new();
    started(manager.request_package_info("wget".to_string(), PackageType::Formula, 0));
    manager.queue_package_info_load("wget".to_string(), PackageType::Formula);
    assert_eq!(manager.pending_loads_count(), 0);
}

#[test]
fn lookup_times_out_exactly_after_the_timeout() {
    let mut manager = AsyncTaskManager::new();
    let start = 5_000u64;
    started(manager.request_package_info("slow".to_string(), PackageType::Cask, start));

    assert!(manager.poll(start).is_empty());
    assert!(manager.poll(start + PACKAGE_INFO_TIMEOUT_MS - 1).is_empty());
    // Exactly the timeout has passed: not yet.
    assert!(manager.poll(start + PACKAGE_INFO_TIMEOUT_MS).is_empty());
    assert!(manager.is_loading_package_info("slow"));

    let result = manager.poll(start + PACKAGE_INFO_TIMEOUT_MS + 1);
    assert_eq!(result.package_info.len(), 1);
    let (name, record) = &result.package_info[0];
    assert_eq!(name, "slow");
    assert_eq!(record.name, "slow");
    assert_eq!(record.package_type, PackageType::Cask);
    assert!(record.version_load_failed);
    assert!(record.version.is_none());
    assert!(!record.installed);
    assert_eq!(result.completed_package_info_loads, vec!["slow".to_string()]);
    assert!(!manager.is_loading_package_info("slow"));
    assert_eq!(manager.loading_count(), 0);
}

#[test]
fn timeout_goes_before_a_late_answer() {
    let mut manager = AsyncTaskManager::new();
    let cell = started(manager.request_package_info("late".to_string(), PackageType::Formula, 0));
    assert!(cell.write(package("late").with_version("2.0".to_string())));
    let result = manager.poll(PACKAGE_INFO_TIMEOUT_MS + 1);
    assert!(result.package_info[0].1.version_load_failed);
}

#[test]
fn a_clock_that_runs_backwards_times_nothing_out() {
    assert!(!has_timed_out(100, 50));
    assert!(!has_timed_out(0, PACKAGE_INFO_TIMEOUT_MS));
    assert!(has_timed_out(0, PACKAGE_INFO_TIMEOUT_MS + 1));
    assert!(has_timed_out(7, u64::MAX));
    assert!(!has_timed_out(u64::MAX, 0));
}

#[test]
fn poll_does_not_wait_for_a_held_guard() {
    let mut manager = AsyncTaskManager::new();
    let held = list_cells();
    let done = outcome_cells();
    manager.set_active_task(load_installed(&held));
    manager.set_active_task(install(&done));
    let lookup = started(manager.request_package_info("x".to_string(), PackageType::Formula, 0));
    finish_list(&held, &["wget"], "done");
    assert!(done.success.write(true));
    assert!(done.message.write("ok".to_string()));
    assert!(done.logs.write(vec!["installed".to_string()]));
    assert!(lookup.write(package("x")));

    let log_slot = held.logs.slot();
    let lookup_slot = lookup.slot();
    let log_guard = log_slot.lock().unwrap();
    let lookup_guard = lookup_slot.lock().unwrap();
    let begin = Instant::now();
    let result = manager.poll(1);
    assert!(begin.elapsed() < Duration::from_secs(2));
    // The tasks whose cells are held stay; the other completes.
    assert!(result.installed_packages.is_none());
    assert!(result.package_info.is_empty());
    assert_eq!(result.install_completed, Some((true, "ok".to_string())));
    assert_eq!(manager.active_count(), 1);
    assert_eq!(manager.loading_count(), 1);
    drop(log_guard);
    drop(lookup_guard);

    // One frame later the results are seen.
    let result = manager.poll(2);
    assert_eq!(result.installed_packages.map(|p| p.len()), Some(1));
    assert_eq!(result.package_info.len(), 1);
    assert_eq!(manager.active_count(), 0);
}

#[test]
fn held_payload_keeps_the_task_too() {
    let mut manager = AsyncTaskManager::new();
    let cells = list_cells();
    manager.set_active_task(load_installed(&cells));
    finish_list(&cells, &["wget"], "done");
    let slot = cells.packages.slot();
    let guard = slot.lock().unwrap();
    assert!(manager.poll(0).is_empty());
    drop(guard);
    assert!(!manager.poll(1).is_empty());
}

#[test]
fn cell_reads_busy_empty_ready() {
    let cell: ResultCell<u32> = ResultCell::new();
    assert!(matches!(cell.try_read(), CellRead::Empty));
    let worker = cell.share();
    {
        let slot = worker.slot();
        let _guard = slot.lock().unwrap();
        assert!(matches!(cell.try_read(), CellRead::Busy));
    }
    assert!(worker.write(7));
    assert!(matches!(cell.try_read(), CellRead::Ready(7)));
    assert!(matches!(worker.try_read(), CellRead::Ready(7)));
}

#[test]
fn settle_needs_log_line_and_every_payload() {
    let lines = || CellRead::Ready(vec!["done".to_string()]);
    let found = || CellRead::Ready(vec![package("a")]);
    assert!(matches!(settle_packages(lines(), found()), Some(Completion::Packages { .. })));
    assert!(settle_packages(CellRead::Busy, found()).is_none());
    assert!(settle_packages(CellRead::Empty, found()).is_none());
    assert!(settle_packages(CellRead::Ready(Vec::new()), found()).is_none());
    assert!(settle_packages(lines(), CellRead::Busy).is_none());
    assert!(settle_packages(lines(), CellRead::Empty).is_none());

    let text = || CellRead::Ready("ok".to_string());
    match settle_outcome(lines(), CellRead::Ready(true), text()) {
        Some(Completion::Outcome { success, message, logs }) => {
            assert!(success);
            assert_eq!(message, "ok");
            assert_eq!(logs, vec!["done".to_string()]);
        }
        _ => panic!("the task is complete"),
    }
    assert!(settle_outcome(lines(), CellRead::Empty, text()).is_none());
    assert!(settle_outcome(lines(), CellRead::Ready(false), CellRead::Busy).is_none());
    assert!(settle_outcome(CellRead::Busy, CellRead::Ready(false), text()).is_none());

    assert!(log_signals_completion(&lines()));
    assert!(!log_signals_completion(&CellRead::Ready(Vec::new())));
    assert!(!log_signals_completion(&CellRead::Busy));
    assert!(!log_signals_completion(&CellRead::Empty));
}

#[test]
fn completion_fits_kinds_of_its_family() {
    let list = Completion::Packages { packages: Vec::new(), logs: vec!["x".to_string()] };
    let outcome =
        Completion::Outcome { success: true, message: String::new(), logs: vec!["x".to_string()] };
    for kind in [TaskKind::LoadInstalled, TaskKind::LoadOutdated, TaskKind::Search] {
        assert!(fits_kind(&list, kind));
        assert!(!fits_kind(&outcome, kind));
    }
    for kind in [
        TaskKind::Install,
        TaskKind::Uninstall,
        TaskKind::Update,
        TaskKind::UpdateAll,
        TaskKind::CleanCache,
        TaskKind::CleanupOldVersions,
        TaskKind::Pin,
        TaskKind::Unpin,
        TaskKind::StartService,
        TaskKind::StopService,
        TaskKind::RestartService,
        TaskKind::ExportPackages,
        TaskKind::ImportPackages,
    ] {
        assert!(fits_kind(&outcome, kind));
        assert!(!fits_kind(&list, kind));
    }
    let services = Completion::Services { services: Vec::new(), logs: vec!["x".to_string()] };
    assert!(fits_kind(&services, TaskKind::LoadServices));
    assert!(!fits_kind(&services, TaskKind::LoadInstalled));
    assert!(!fits_kind(&list, TaskKind::LoadServices));
    assert!(!fits_kind(&outcome, TaskKind::LoadServices));
    assert!(!fits_kind(&list, TaskKind::LoadPackageInfo));
    assert!(!fits_kind(&outcome, TaskKind::LoadPackageInfo));
}

#[test]
fn apply_settles_from_given_readings() {
    let mut manager = AsyncTaskManager::new();
    let a = list_cells();
    let b = outcome_cells();
    manager.set_active_task(load_installed(&a));
    manager.set_active_task(install(&b));
    started(manager.request_package_info("one".to_string(), PackageType::Formula, 10));
    started(manager.request_package_info("two".to_string(), PackageType::Formula, 10));

    let readings = PollReadings {
        singles: vec![
            None,
            Some(Completion::Outcome {
                success: true,
                message: "wget installed successfully".to_string(),
                logs: vec!["Successfully installed wget".to_string()],
            }),
        ],
        details: vec![CellRead::Busy, CellRead::Ready(package("two"))],
    };
    let result: TaskResult = manager.apply(20, readings);
    assert!(result.installed_packages.is_none());
    assert_eq!(result.install_completed, Some((true, "wget installed successfully".to_string())));
    assert_eq!(result.logs, vec!["Successfully installed wget".to_string()]);
    assert_eq!(result.package_info.len(), 1);
    assert_eq!(result.package_info[0].0, "two");
    assert_eq!(manager.active_count(), 1);
    assert!(manager.has_task_kind(TaskKind::LoadInstalled));
    assert!(manager.is_loading_package_info("one"));
    assert!(!manager.is_loading_package_info("two"));
}

#[test]
fn apply_ignores_a_reading_that_does_not_fit() {
    let mut manager = AsyncTaskManager::new();
    let a = list_cells();
    manager.set_active_task(load_installed(&a));
    let readings = PollReadings {
        singles: vec![Some(Completion::Outcome {
            success: true,
            message: String::new(),
            logs: vec!["x".to_string()],
        })],
        details: Vec::new(),
    };
    assert!(manager.apply(0, readings).is_empty());
    assert_eq!(manager.active_count(), 1);
    // Missing readings leave the tasks as they are; surplus ones are ignored.
    let readings = PollReadings {
        singles: Vec::new(),
        details: vec![CellRead::Ready(package("ghost"))],
    };
    assert!(manager.apply(0, readings).is_empty());
    assert_eq!(manager.active_count(), 1);
}

#[test]
fn observe_reads_every_outstanding_task() {
    let mut manager = AsyncTaskManager::new();
    let a = list_cells();
    let b = outcome_cells();
    manager.set_active_task(load_installed(&a));
    manager.set_active_task(install(&b));
    let cell = started(manager.request_package_info("one".to_string(), PackageType::Formula, 0));
    finish_list(&a, &["x", "y"], "done");
    assert!(cell.write(package("one")));
    let readings = manager.observe();
    assert_eq!(readings.singles.len(), 2);
    assert!(matches!(&readings.singles[0], Some(Completion::Packages { packages, .. }) if packages.len() == 2));
    assert!(readings.singles[1].is_none());
    assert_eq!(readings.details.len(), 1);
    assert!(matches!(&readings.details[0], CellRead::Ready(p) if p.name == "one"));
    // Looking changes nothing.
    assert_eq!(manager.active_count(), 2);
    assert_eq!(manager.loading_count(), 1);
}

#[test]
fn add_package_info_task_accepts_only_what_may_start() {
    let mut manager = AsyncTaskManager::new();
    let lookup = |name: &str| AsyncTask::LoadPackageInfo {
        package_name: name.to_string(),
        package_type: PackageType::Formula,
        result: ResultCell::new(),
        started_at: 0,
    };
    assert!(manager.add_package_info_task("wget".to_string(), lookup("wget")));
    // In flight already.
    assert!(!manager.add_package_info_task("wget".to_string(), lookup("wget")));
    // The name does not match the task.
    assert!(!manager.add_package_info_task("curl".to_string(), lookup("git")));
    // Not a lookup.
    let cells = list_cells();
    assert!(!manager.add_package_info_task("curl".to_string(), load_installed(&cells)));
    // Waiting in the queue.
    manager.queue_package_info_load("jq".to_string(), PackageType::Formula);
    assert!(!manager.add_package_info_task("jq".to_string(), lookup("jq")));
    assert_eq!(manager.loading_count(), 1);

    for i in 0..14 {
        let name = format!("p{}", i);
        assert!(manager.add_package_info_task(name.clone(), lookup(&name)));
    }
    assert_eq!(manager.loading_count(), 15);
    // All slots are taken.
    assert!(!manager.add_package_info_task("more".to_string(), lookup("more")));
    assert_eq!(manager.loading_count(), 15);
}

#[test]
fn set_active_task_routes_lookups() {
    let mut manager = AsyncTaskManager::new();
    let cell: ResultCell<Package> = ResultCell::new();
    manager.set_active_task(AsyncTask::LoadPackageInfo {
        package_name: "wget".to_string(),
        package_type: PackageType::Formula,
        result: cell.share(),
        started_at: 3,
    });
    assert_eq!(manager.active_count(), 0);
    assert_eq!(manager.loading_count(), 1);
    assert!(!manager.has_task_type("LoadPackageInfo"));
    assert!(cell.write(package("wget")));
    assert_eq!(manager.poll(4).package_info.len(), 1);
}

#[test]
fn kinds_have_the_names_of_their_variants() {
    let kinds = [
        (TaskKind::LoadInstalled, "LoadInstalled"),
        (TaskKind::LoadOutdated, "LoadOutdated"),
        (TaskKind::Search, "Search"),
        (TaskKind::LoadPackageInfo, "LoadPackageInfo"),
        (TaskKind::Install, "Install"),
        (TaskKind::Uninstall, "Uninstall"),
        (TaskKind::Update, "Update"),
        (TaskKind::UpdateAll, "UpdateAll"),
        (TaskKind::CleanCache, "CleanCache"),
        (TaskKind::CleanupOldVersions, "CleanupOldVersions"),
        (TaskKind::Pin, "Pin"),
        (TaskKind::Unpin, "Unpin"),
        (TaskKind::LoadServices, "LoadServices"),
        (TaskKind::StartService, "StartService"),
        (TaskKind::StopService, "StopService"),
        (TaskKind::RestartService, "RestartService"),
        (TaskKind::ExportPackages, "ExportPackages"),
        (TaskKind::ImportPackages, "ImportPackages"),
    ];
    for (kind, name) in kinds {
        assert_eq!(kind.name(), name);
        assert_eq!(TaskKind::from_name(name), Some(kind));
    }
    assert_eq!(TaskKind::from_name("Reinstall"), None);
    assert_eq!(TaskKind::from_name("search"), None);
    let cells = list_cells();
    assert_eq!(load_installed(&cells).kind(), TaskKind::LoadInstalled);
}

#[test]
fn poll_one_looks_at_one_task() {
    let cells = outcome_cells();
    let task = install(&cells);
    assert!(task.poll_one().is_none());
    assert!(cells.logs.write(vec!["line".to_string()]));
    // The log has signalled, but the payload is missing.
    assert!(task.poll_one().is_none());
    assert!(cells.success.write(true));
    assert!(cells.message.write("fine".to_string()));
    assert!(matches!(task.poll_one(), Some(Completion::Outcome { success: true, .. })));
    let lookup = AsyncTask::LoadPackageInfo {
        package_name: "x".to_string(),
        package_type: PackageType::Formula,
        result: ResultCell::new(),
        started_at: 0,
    };
    assert!(lookup.poll_one().is_none());
}

#[test]
fn a_look_is_busy_empty_or_ready() {
    assert!(matches!(CellRead::<u8>::from_look(None), CellRead::Busy));
    assert!(matches!(CellRead::<u8>::from_look(Some(None)), CellRead::Empty));
    assert!(matches!(CellRead::from_look(Some(Some(9u8))), CellRead::Ready(9)));
}
