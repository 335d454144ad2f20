use brewsty::domain::entities::{Package, PackageType, Service, ServiceStatus};
use brewsty::infrastructure::brew::BrewCommand;
use brewsty::presentation::components::package_row::{
    is_listed, offers_load_info, offers_pin, offers_update, outdated_version_text, should_show,
    status, version_text, version_text_or_na, PackageStatus,
};
use brewsty::presentation::components::LogManager;
use brewsty::presentation::services::package_operation_handler::{
    follow_up, is_password_error, FollowUp,
};
use brewsty::presentation::services::{
    AsyncTask, AsyncTaskManager, OperationResult, PackageOperation, ResultCell, TaskKind,
};
use brewsty::presentation::ui::tabs::{
    InstalledAction, InstalledTab, PackageClicks, SearchAction, SearchTab, ServiceAction,
    ServicesTab,
};

fn package(name: &str) -> Package {
    Package::new(name.to_string(), PackageType::Formula)
}

#[test]
fn operation_messages() {
    let op = PackageOperation::Install;
    assert_eq!(op.start_message("wget", PackageType::Formula), "Installing package: wget (Formula)");
    assert_eq!(op.succeeded_line("wget"), "Successfully installed wget");
    assert_eq!(op.succeeded_message("wget"), "wget installed successfully");
    assert_eq!(op.failed_line("wget", "no network"), "Error installing wget: no network");
    assert_eq!(
        PackageOperation::Unpin.start_message("node", PackageType::Cask),
        "Unpinning package: node (Cask)"
    );
    assert_eq!(PackageOperation::Uninstall.succeeded_line("a"), "Successfully uninstalled a");
    assert_eq!(PackageOperation::Update.succeeded_message("a"), "a updated successfully");
    assert_eq!(PackageOperation::Pin.failed_line("a", "x"), "Error pinning a: x");
    assert_eq!(PackageOperation::Update.ongoing(), "Updating");
    assert_eq!(PackageOperation::Pin.failing(), "pinning");
    assert_eq!(PackageOperation::Unpin.done(), "unpinned");
}

#[test]
fn operation_result_of_a_success_and_of_a_failure() {
    let ok = OperationResult::conclude(PackageOperation::Update, "jq", PackageType::Formula, None);
    assert!(ok.success);
    assert_eq!(ok.message, "jq updated successfully");
    assert_eq!(
        ok.log_messages,
        vec!["Updating package: jq (Formula)".to_string(), "Successfully updated jq".to_string()]
    );
    let failed = OperationResult::conclude(
        PackageOperation::Uninstall,
        "vlc",
        PackageType::Cask,
        Some("busy".to_string()),
    );
    assert!(!failed.success);
    assert_eq!(failed.message, "Error uninstalling vlc: busy");
    assert_eq!(
        failed.log_messages,
        vec![
            "Uninstalling package: vlc (Cask)".to_string(),
            "Error uninstalling vlc: busy".to_string()
        ]
    );
}

#[test]
fn password_errors() {
    for message in [
        "a password is required",
        "sudo: a terminal is required",
        "authentication failure",
        "Permission denied",
        "Incorrect password",
        "1 incorrect password attempt",
        "sorry, try again",
    ] {
        assert!(is_password_error(message), "{}", message);
        assert_eq!(follow_up(false, message), FollowUp::AskPassword);
        assert_eq!(follow_up(true, message), FollowUp::Settle);
    }
    for message in ["", "No such formula", "permission denied", "Sorry, Try Again", "SUDO"] {
        assert!(!is_password_error(message), "{}", message);
        assert_eq!(follow_up(false, message), FollowUp::Forget);
    }
}

#[test]
fn rows_are_listed_by_family_and_search() {
    let formula = package("LibPNG");
    let cask = Package::new("firefox".to_string(), PackageType::Cask);
    assert!(should_show(&formula, true, true, ""));
    assert!(should_show(&formula, true, false, ""));
    assert!(!should_show(&formula, false, true, ""));
    assert!(should_show(&cask, false, true, ""));
    assert!(!should_show(&cask, true, false, ""));
    assert!(should_show(&formula, true, true, "png"));
    assert!(should_show(&formula, true, true, "PNG"));
    assert!(should_show(&formula, true, true, "libpng"));
    assert!(!should_show(&formula, true, true, "jpeg"));
    assert!(!should_show(&formula, false, true, "png"));
    // `is_listed` takes both texts as they are.
    assert!(!is_listed(&formula, true, true, "LibPNG", "png"));
    assert!(is_listed(&formula, true, true, "libpng", "png"));
    assert!(is_listed(&formula, true, true, "anything", ""));
}

#[test]
fn version_columns() {
    assert_eq!(version_text(&package("a")), "N/A");
    assert_eq!(version_text(&package("a").with_version("1".to_string())), "1");
    let newer = package("a").with_version("1".to_string()).with_available_version("2".to_string());
    // A search result shows the arrow only when it is outdated.
    assert_eq!(version_text(&newer), "1");
    assert_eq!(version_text(&newer.clone().set_outdated(true)), "1 -> 2");
    assert_eq!(outdated_version_text(&newer), "1 -> 2");
    assert_eq!(
        outdated_version_text(&package("a").with_available_version("2".to_string())),
        "N/A -> 2"
    );
    assert_eq!(outdated_version_text(&package("a").with_version("1".to_string())), "1");
    let failed = newer.set_outdated(true).set_version_load_failed(true);
    assert_eq!(version_text(&failed), "Failed");
    assert_eq!(outdated_version_text(&failed), "Failed");
    assert_eq!(version_text(&package("a").set_outdated(true)), "N/A");
    assert_eq!(version_text_or_na(&None), "N/A");
    assert_eq!(version_text_or_na(&Some("3".to_string())), "3");
}

#[test]
fn status_and_buttons() {
    assert_eq!(status(&package("a")), PackageStatus::Available);
    assert_eq!(status(&package("a").set_installed(true)), PackageStatus::Installed);
    assert_eq!(status(&package("a").set_installed(true).set_outdated(true)), PackageStatus::Outdated);
    assert_eq!(
        status(&package("a").set_installed(true).set_outdated(true).set_pinned(true)),
        PackageStatus::Pinned
    );
    assert!(offers_load_info(&package("a"), false));
    assert!(!offers_load_info(&package("a"), true));
    assert!(!offers_load_info(&package("a").with_version("1".to_string()), false));
    assert!(!offers_load_info(&package("a").set_version_load_failed(true), false));
    assert!(offers_update(&package("a").set_installed(true).set_outdated(true)));
    assert!(!offers_update(&package("a").set_outdated(true)));
    assert!(!offers_update(&package("a").set_installed(true)));
    assert!(!offers_update(&package("a").set_installed(true).set_outdated(true).set_pinned(true)));
    assert!(offers_pin(&package("a").set_installed(true)));
    assert!(!offers_pin(&package("a")));
    assert!(!offers_pin(&Package::new("c".to_string(), PackageType::Cask).set_installed(true)));
}

#[test]
fn installed_tab_reports_actions_in_order() {
    assert!(InstalledTab::actions(false, PackageClicks::new()).is_empty());
    let clicks = PackageClicks {
        install: Some(package("i")),
        uninstall: Some(package("u")),
        update: Some(package("up")),
        update_selected: Some(vec!["s".to_string()]),
        pin: Some(package("p")),
        unpin: Some(package("np")),
        load_info: Some(Package::new("l".to_string(), PackageType::Cask)),
    };
    let actions = InstalledTab::actions(true, clicks);
    assert_eq!(actions.len(), 8);
    assert!(matches!(&actions[0], InstalledAction::Refresh));
    assert!(matches!(&actions[1], InstalledAction::Install(p) if p.name == "i"));
    assert!(matches!(&actions[2], InstalledAction::Uninstall(p) if p.name == "u"));
    assert!(matches!(&actions[3], InstalledAction::Update(p) if p.name == "up"));
    assert!(matches!(&actions[4], InstalledAction::UpdateSelected(n) if n.len() == 1));
    assert!(matches!(&actions[5], InstalledAction::Pin(p) if p.name == "p"));
    assert!(matches!(&actions[6], InstalledAction::Unpin(p) if p.name == "np"));
    assert!(
        matches!(&actions[7], InstalledAction::LoadInfo(n, PackageType::Cask) if n == "l")
    );
    let mut one = PackageClicks::new();
    one.pin = Some(package("only"));
    let actions = InstalledTab::actions(false, one);
    assert_eq!(actions.len(), 1);
    assert!(matches!(&actions[0], InstalledAction::Pin(_)));
}

#[test]
fn search_tab_reports_actions_in_order() {
    let clicks = PackageClicks {
        install: Some(package("i")),
        uninstall: None,
        update: Some(package("up")),
        update_selected: Some(vec!["ignored".to_string()]),
        pin: Some(package("p")),
        unpin: Some(package("np")),
        load_info: Some(package("l")),
    };
    let actions = SearchTab::actions(true, clicks);
    assert_eq!(actions.len(), 6);
    assert!(matches!(&actions[0], SearchAction::Search));
    assert!(matches!(&actions[1], SearchAction::Install(_)));
    assert!(matches!(&actions[2], SearchAction::Update(_)));
    assert!(matches!(&actions[3], SearchAction::LoadInfo(n, PackageType::Formula) if n == "l"));
    assert!(matches!(&actions[4], SearchAction::Pin(_)));
    assert!(matches!(&actions[5], SearchAction::Unpin(_)));
    assert!(SearchTab::actions(false, PackageClicks::new()).is_empty());
}

#[test]
fn services_tab_reports_actions_in_order() {
    let actions = ServicesTab::actions(
        true,
        Some("a".to_string()),
        Some("b".to_string()),
        Some("c".to_string()),
    );
    assert_eq!(actions.len(), 4);
    assert!(matches!(&actions[0], ServiceAction::Refresh));
    assert!(matches!(&actions[1], ServiceAction::Start(n) if n == "a"));
    assert!(matches!(&actions[2], ServiceAction::Stop(n) if n == "b"));
    assert!(matches!(&actions[3], ServiceAction::Restart(n) if n == "c"));
    let actions = ServicesTab::actions(false, None, Some("b".to_string()), None);
    assert_eq!(actions.len(), 1);
    assert!(ServicesTab::actions(false, None, None, None).is_empty());
}

#[test]
fn service_command_lines() {
    let strings = |items: &[&str]| items.iter().map(|s| s.to_string()).collect::<Vec<String>>();
    assert_eq!(BrewCommand::list_services(), strings(&["services", "list"]));
    assert_eq!(BrewCommand::start_service("redis"), strings(&["services", "start", "redis"]));
    assert_eq!(BrewCommand::stop_service("redis"), strings(&["services", "stop", "redis"]));
    assert_eq!(BrewCommand::restart_service("redis"), strings(&["services", "restart", "redis"]));
}

#[test]
fn transcript_has_a_line_per_entry() {
    let mut log = LogManager::new();
    assert_eq!(log.transcript(), "");
    log.push("first".to_string(), 3_661);
    assert_eq!(log.transcript(), "[01:01:01] first");
    log.push("[DEBUG] second".to_string(), 86_399);
    log.push("".to_string(), 0);
    assert_eq!(log.transcript(), "[01:01:01] first\n[23:59:59] [DEBUG] second\n[00:00:00] ");
}

#[test]
fn services_load_through_the_coordinator() {
    let mut manager = AsyncTaskManager::new();
    let services: ResultCell<Vec<Service>> = ResultCell::new();
    let logs: ResultCell<Vec<String>> = ResultCell::new();
    manager.set_active_task(AsyncTask::LoadServices {
        services: services.share(),
        logs: logs.share(),
    });
    manager.set_active_task(AsyncTask::LoadServices {
        services: ResultCell::new(),
        logs: ResultCell::new(),
    });
    assert_eq!(manager.active_count(), 1);
    assert!(manager.has_task_kind(TaskKind::LoadServices));
    assert!(manager.has_task_type("LoadServices"));
    assert!(services.write(vec![Service::new("redis".to_string(), ServiceStatus::Started)]));
    assert!(manager.poll(0).is_empty());
    assert!(logs.write(vec!["Loaded 1 services".to_string()]));
    let result = manager.poll(1);
    assert_eq!(result.services.map(|s| s.len()), Some(1));
    assert_eq!(result.logs.len(), 1);
    assert!(result.installed_packages.is_none());
}

#[test]
fn service_and_export_completions_have_their_slots() {
    let mut manager = AsyncTaskManager::new();
    let cells = || -> (ResultCell<bool>, ResultCell<Vec<String>>, ResultCell<String>) {
        (ResultCell::new(), ResultCell::new(), ResultCell::new())
    };
    let finish = |c: &(ResultCell<bool>, ResultCell<Vec<String>>, ResultCell<String>),
                  ok: bool,
                  text: &str| {
        assert!(c.0.write(ok));
        assert!(c.2.write(text.to_string()));
        assert!(c.1.write(vec![text.to_string()]));
    };
    let start = cells();
    let stop = cells();
    let restart = cells();
    let export = cells();
    let import = cells();
    manager.set_active_task(AsyncTask::StartService {
        service_name: "a".to_string(),
        success: start.0.share(),
        logs: start.1.share(),
        message: start.2.share(),
    });
    manager.set_active_task(AsyncTask::StopService {
        service_name: "b".to_string(),
        success: stop.0.share(),
        logs: stop.1.share(),
        message: stop.2.share(),
    });
    manager.set_active_task(AsyncTask::RestartService {
        service_name: "c".to_string(),
        success: restart.0.share(),
        logs: restart.1.share(),
        message: restart.2.share(),
    });
    manager.set_active_task(AsyncTask::ExportPackages {
        success: export.0.share(),
        logs: export.1.share(),
        message: export.2.share(),
    });
    manager.set_active_task(AsyncTask::ImportPackages {
        success: import.0.share(),
        logs: import.1.share(),
        message: import.2.share(),
    });
    assert_eq!(manager.active_count(), 5);
    finish(&start, true, "started");
    finish(&stop, false, "not stopped");
    finish(&restart, true, "restarted");
    finish(&export, true, "exported");
    finish(&import, false, "not imported");
    let result = manager.poll(0);
    assert_eq!(
        result.start_service_completed,
        Some(("a".to_string(), true, "started".to_string()))
    );
    assert_eq!(
        result.stop_service_completed,
        Some(("b".to_string(), false, "not stopped".to_string()))
    );
    assert_eq!(
        result.restart_service_completed,
        Some(("c".to_string(), true, "restarted".to_string()))
    );
    assert_eq!(result.export_packages_completed, Some((true, "exported".to_string())));
    assert_eq!(result.import_packages_completed, Some((false, "not imported".to_string())));
    assert_eq!(result.logs.len(), 5);
    assert_eq!(manager.active_count(), 0);
}
