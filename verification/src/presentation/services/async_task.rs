use crate::domain::entities::package::{Package, PackageType};
use crate::domain::entities::service::Service;
use crate::presentation::services::result_cell::{CellRead, ResultCell};
use vstd::prelude::*;

verus! {

/// The kinds of background work. All but `LoadPackageInfo` are singletons:
/// at most one task of the kind is outstanding at a time.
#[derive(Debug, Clone, Copy, PartialEq, Eq, Hash, Structural)]
pub enum TaskKind {
    LoadInstalled,
    LoadOutdated,
    Search,
    LoadPackageInfo,
    Install,
    Uninstall,
    Update,
    UpdateAll,
    CleanCache,
    CleanupOldVersions,
    Pin,
    Unpin,
    LoadServices,
    StartService,
    StopService,
    RestartService,
    ExportPackages,
    ImportPackages,
}

impl TaskKind {
    /// Kinds of which at most one task is outstanding at a time.
    pub open spec fn is_singleton(self) -> bool {
        self != TaskKind::LoadPackageInfo
    }

    /// Kinds whose payload is a list of packages.
    pub open spec fn yields_packages(self) -> bool {
        self == TaskKind::LoadInstalled || self == TaskKind::LoadOutdated || self
            == TaskKind::Search
    }

    /// Kinds whose payload is a list of services.
    pub open spec fn yields_services(self) -> bool {
        self == TaskKind::LoadServices
    }

    /// Kinds whose payload is a success flag and a message.
    pub open spec fn yields_outcome(self) -> bool {
        self.is_singleton() && !self.yields_packages() && !self.yields_services()
    }

    /// The kind's name, which is that of the task's variant.
    pub open spec fn name_view(self) -> Seq<char> {
        match self {
            TaskKind::LoadInstalled => "LoadInstalled"@,
            TaskKind::LoadOutdated => "LoadOutdated"@,
            TaskKind::Search => "Search"@,
            TaskKind::LoadPackageInfo => "LoadPackageInfo"@,
            TaskKind::Install => "Install"@,
            TaskKind::Uninstall => "Uninstall"@,
            TaskKind::Update => "Update"@,
            TaskKind::UpdateAll => "UpdateAll"@,
            TaskKind::CleanCache => "CleanCache"@,
            TaskKind::CleanupOldVersions => "CleanupOldVersions"@,
            TaskKind::Pin => "Pin"@,
            TaskKind::Unpin => "Unpin"@,
            TaskKind::LoadServices => "LoadServices"@,
            TaskKind::StartService => "StartService"@,
            TaskKind::StopService => "StopService"@,
            TaskKind::RestartService => "RestartService"@,
            TaskKind::ExportPackages => "ExportPackages"@,
            TaskKind::ImportPackages => "ImportPackages"@,
        }
    }

    /// The kind's name, which is that of the task's variant.
    pub fn name(self) -> (s: &'static str)
        ensures
            s@ == self.name_view(),
    {
        match self {
            TaskKind::LoadInstalled => "LoadInstalled",
            TaskKind::LoadOutdated => "LoadOutdated",
            TaskKind::Search => "Search",
            TaskKind::LoadPackageInfo => "LoadPackageInfo",
            TaskKind::Install => "Install",
            TaskKind::Uninstall => "Uninstall",
            TaskKind::Update => "Update",
            TaskKind::UpdateAll => "UpdateAll",
            TaskKind::CleanCache => "CleanCache",
            TaskKind::CleanupOldVersions => "CleanupOldVersions",
            TaskKind::Pin => "Pin",
            TaskKind::Unpin => "Unpin",
            TaskKind::LoadServices => "LoadServices",
            TaskKind::StartService => "StartService",
            TaskKind::StopService => "StopService",
            TaskKind::RestartService => "RestartService",
            TaskKind::ExportPackages => "ExportPackages",
            TaskKind::ImportPackages => "ImportPackages",
        }
    }

    /// The kind that goes by `name`, if any.
    pub open spec fn named(name: Seq<char>) -> Option<TaskKind> {
        if name == "LoadInstalled"@ {
            Some(TaskKind::LoadInstalled)
        } else if name == "LoadOutdated"@ {
            Some(TaskKind::LoadOutdated)
        } else if name == "Search"@ {
            Some(TaskKind::Search)
        } else if name == "LoadPackageInfo"@ {
            Some(TaskKind::LoadPackageInfo)
        } else if name == "Install"@ {
            Some(TaskKind::Install)
        } else if name == "Uninstall"@ {
            Some(TaskKind::Uninstall)
        } else if name == "Update"@ {
            Some(TaskKind::Update)
        } else if name == "UpdateAll"@ {
            Some(TaskKind::UpdateAll)
        } else if name == "CleanCache"@ {
            Some(TaskKind::CleanCache)
        } else if name == "CleanupOldVersions"@ {
            Some(TaskKind::CleanupOldVersions)
        } else if name == "Pin"@ {
            Some(TaskKind::Pin)
        } else if name == "Unpin"@ {
            Some(TaskKind::Unpin)
        } else if name == "LoadServices"@ {
            Some(TaskKind::LoadServices)
        } else if name == "StartService"@ {
            Some(TaskKind::StartService)
        } else if name == "StopService"@ {
            Some(TaskKind::StopService)
        } else if name == "RestartService"@ {
            Some(TaskKind::RestartService)
        } else if name == "ExportPackages"@ {
            Some(TaskKind::ExportPackages)
        } else if name == "ImportPackages"@ {
            Some(TaskKind::ImportPackages)
        } else {
            None
        }
    }

    /// The kind that goes by `name`, if any.
    pub fn from_name(name: &str) -> (k: Option<TaskKind>)
        ensures
            k == Self::named(name@),
    {
        if name.eq("LoadInstalled") {
            Some(TaskKind::LoadInstalled)
        } else if name.eq("LoadOutdated") {
            Some(TaskKind::LoadOutdated)
        } else if name.eq("Search") {
            Some(TaskKind::Search)
        } else if name.eq("LoadPackageInfo") {
            Some(TaskKind::LoadPackageInfo)
        } else if name.eq("Install") {
            Some(TaskKind::Install)
        } else if name.eq("Uninstall") {
            Some(TaskKind::Uninstall)
        } else if name.eq("Update") {
            Some(TaskKind::Update)
        } else if name.eq("UpdateAll") {
            Some(TaskKind::UpdateAll)
        } else if name.eq("CleanCache") {
            Some(TaskKind::CleanCache)
        } else if name.eq("CleanupOldVersions") {
            Some(TaskKind::CleanupOldVersions)
        } else if name.eq("Pin") {
            Some(TaskKind::Pin)
        } else if name.eq("Unpin") {
            Some(TaskKind::Unpin)
        } else if name.eq("LoadServices") {
            Some(TaskKind::LoadServices)
        } else if name.eq("StartService") {
            Some(TaskKind::StartService)
        } else if name.eq("StopService") {
            Some(TaskKind::StopService)
        } else if name.eq("RestartService") {
            Some(TaskKind::RestartService)
        } else if name.eq("ExportPackages") {
            Some(TaskKind::ExportPackages)
        } else if name.eq("ImportPackages") {
            Some(TaskKind::ImportPackages)
        } else {
            None
        }
    }

    /// Every kind is found again by its name.
    pub proof fn lemma_named_inverts_name(self)
        ensures
            Self::named(self.name_view()) == Some(self),
    {
        reveal_strlit("LoadInstalled");
        reveal_strlit("LoadOutdated");
        reveal_strlit("Search");
        reveal_strlit("LoadPackageInfo");
        reveal_strlit("Install");
        reveal_strlit("Uninstall");
        reveal_strlit("Update");
        reveal_strlit("UpdateAll");
        reveal_strlit("CleanCache");
        reveal_strlit("CleanupOldVersions");
        reveal_strlit("Pin");
        reveal_strlit("Unpin");
        reveal_strlit("LoadServices");
        reveal_strlit("StartService");
        reveal_strlit("StopService");
        reveal_strlit("RestartService");
        reveal_strlit("ExportPackages");
        reveal_strlit("ImportPackages");
        assert("LoadInstalled"@.len() == 13 && "LoadOutdated"@.len() == 12);
        assert("Search"@.len() == 6 && "LoadPackageInfo"@.len() == 15);
        assert("Install"@.len() == 7 && "Uninstall"@.len() == 9);
        assert("Update"@.len() == 6 && "UpdateAll"@.len() == 9);
        assert("CleanCache"@.len() == 10 && "CleanupOldVersions"@.len() == 18);
        assert("Pin"@.len() == 3 && "Unpin"@.len() == 5);
        assert("Search"@[0] == 'S' && "Update"@[0] == 'U');
        assert("Uninstall"@[1] == 'n' && "UpdateAll"@[1] == 'p');
        assert("LoadServices"@.len() == 12 && "StartService"@.len() == 12);
        assert("StopService"@.len() == 11 && "RestartService"@.len() == 14);
        assert("ExportPackages"@.len() == 14 && "ImportPackages"@.len() == 14);
        assert("LoadOutdated"@[4] == 'O' && "LoadServices"@[4] == 'S');
        assert("LoadOutdated"@[0] == 'L' && "LoadServices"@[0] == 'L' && "StartService"@[0] == 'S');
        assert("RestartService"@[0] == 'R' && "ExportPackages"@[0] == 'E');
        assert("ImportPackages"@[0] == 'I');
    }
}

/// One unit of background work that is outstanding, with the cells its
/// worker writes. A worker writes the payload cells first and the log cell
/// last, with at least one line: a log that holds a line is the signal that
/// the task is complete.
pub enum AsyncTask {
    LoadInstalled { packages: ResultCell<Vec<Package>>, logs: ResultCell<Vec<String>> },
    LoadOutdated { packages: ResultCell<Vec<Package>>, logs: ResultCell<Vec<String>> },
    Search { results: ResultCell<Vec<Package>>, logs: ResultCell<Vec<String>> },
    LoadPackageInfo {
        package_name: String,
        package_type: PackageType,
        result: ResultCell<Package>,
        /// Milliseconds on the caller's monotonic clock.
        started_at: u64,
    },
    Install { success: ResultCell<bool>, logs: ResultCell<Vec<String>>, message: ResultCell<String> },
    Uninstall {
        success: ResultCell<bool>,
        logs: ResultCell<Vec<String>>,
        message: ResultCell<String>,
    },
    Update { success: ResultCell<bool>, logs: ResultCell<Vec<String>>, message: ResultCell<String> },
    UpdateAll {
        success: ResultCell<bool>,
        logs: ResultCell<Vec<String>>,
        message: ResultCell<String>,
    },
    CleanCache {
        success: ResultCell<bool>,
        logs: ResultCell<Vec<String>>,
        message: ResultCell<String>,
    },
    CleanupOldVersions {
        success: ResultCell<bool>,
        logs: ResultCell<Vec<String>>,
        message: ResultCell<String>,
    },
    Pin {
        package_name: String,
        success: ResultCell<bool>,
        logs: ResultCell<Vec<String>>,
        message: ResultCell<String>,
    },
    Unpin {
        package_name: String,
        success: ResultCell<bool>,
        logs: ResultCell<Vec<String>>,
        message: ResultCell<String>,
    },
    LoadServices { services: ResultCell<Vec<Service>>, logs: ResultCell<Vec<String>> },
    StartService {
        service_name: String,
        success: ResultCell<bool>,
        logs: ResultCell<Vec<String>>,
        message: ResultCell<String>,
    },
    StopService {
        service_name: String,
        success: ResultCell<bool>,
        logs: ResultCell<Vec<String>>,
        message: ResultCell<String>,
    },
    RestartService {
        service_name: String,
        success: ResultCell<bool>,
        logs: ResultCell<Vec<String>>,
        message: ResultCell<String>,
    },
    ExportPackages {
        success: ResultCell<bool>,
        logs: ResultCell<Vec<String>>,
        message: ResultCell<String>,
    },
    ImportPackages {
        success: ResultCell<bool>,
        logs: ResultCell<Vec<String>>,
        message: ResultCell<String>,
    },
}

/// What a singleton task left behind when it completed.
pub enum Completion {
    Packages { packages: Vec<Package>, logs: Vec<String> },
    Services { services: Vec<Service>, logs: Vec<String> },
    Outcome { success: bool, message: String, logs: Vec<String> },
}

impl Completion {
    /// Whether a task of the given kind can complete with this.
    pub open spec fn fits(&self, kind: TaskKind) -> bool {
        match self {
            Completion::Packages { .. } => kind.yields_packages(),
            Completion::Services { .. } => kind.yields_services(),
            Completion::Outcome { .. } => kind.yields_outcome(),
        }
    }

    /// The log lines that came with the completion.
    pub open spec fn logs(&self) -> Seq<String> {
        match self {
            Completion::Packages { logs, .. } => logs@,
            Completion::Services { logs, .. } => logs@,
            Completion::Outcome { logs, .. } => logs@,
        }
    }
}

/// A log signals completion when it was read and holds a line.
pub open spec fn signals_completion(logs: CellRead<Vec<String>>) -> bool {
    logs matches CellRead::Ready(lines) && lines@.len() > 0
}

/// What one look at the cells of a list task makes of it: it is complete
/// when the log holds a line and the payload was read.
pub open spec fn settle_packages_spec(
    logs: CellRead<Vec<String>>,
    packages: CellRead<Vec<Package>>,
) -> Option<Completion> {
    match (logs, packages) {
        (CellRead::Ready(lines), CellRead::Ready(found)) => if lines@.len() > 0 {
            Some(Completion::Packages { packages: found, logs: lines })
        } else {
            None
        },
        _ => None,
    }
}

/// What one look at the cells of a task that lists services makes of it.
pub open spec fn settle_services_spec(
    logs: CellRead<Vec<String>>,
    services: CellRead<Vec<Service>>,
) -> Option<Completion> {
    match (logs, services) {
        (CellRead::Ready(lines), CellRead::Ready(found)) => if lines@.len() > 0 {
            Some(Completion::Services { services: found, logs: lines })
        } else {
            None
        },
        _ => None,
    }
}

/// What one look at the cells of a mutation task makes of it: it is
/// complete when the log holds a line and both the flag and the message
/// were read.
pub open spec fn settle_outcome_spec(
    logs: CellRead<Vec<String>>,
    success: CellRead<bool>,
    message: CellRead<String>,
) -> Option<Completion> {
    match (logs, success, message) {
        (CellRead::Ready(lines), CellRead::Ready(flag), CellRead::Ready(text)) => if lines@.len()
            > 0 {
            Some(Completion::Outcome { success: flag, message: text, logs: lines })
        } else {
            None
        },
        _ => None,
    }
}

/// Whether a look at a log cell showed the completion signal.
pub fn log_signals_completion(logs: &CellRead<Vec<String>>) -> (done: bool)
    ensures
        done == signals_completion(*logs),
{
    match logs {
        CellRead::Ready(lines) => lines.len() > 0,
        _ => false,
    }
}

/// Decides from one look at the cells of a list task whether it is complete:
/// it is when the log holds a line and the payload could be read. A cell that
/// was busy or empty leaves the task outstanding.
pub fn settle_packages(logs: CellRead<Vec<String>>, packages: CellRead<Vec<Package>>) -> (c: Option<
    Completion,
>)
    ensures
        c == settle_packages_spec(logs, packages),
{
    match logs {
        CellRead::Ready(lines) => {
            if lines.len() > 0 {
                match packages {
                    CellRead::Ready(found) => Some(
                        Completion::Packages { packages: found, logs: lines },
                    ),
                    _ => None,
                }
            } else {
                None
            }
        },
        _ => None,
    }
}

/// Decides from one look at the cells of a task that lists services whether
/// it is complete, as [`settle_packages`] does for packages.
pub fn settle_services(logs: CellRead<Vec<String>>, services: CellRead<Vec<Service>>) -> (c: Option<
    Completion,
>)
    ensures
        c == settle_services_spec(logs, services),
{
    match logs {
        CellRead::Ready(lines) => {
            if lines.len() > 0 {
                match services {
                    CellRead::Ready(found) => Some(
                        Completion::Services { services: found, logs: lines },
                    ),
                    _ => None,
                }
            } else {
                None
            }
        },
        _ => None,
    }
}

/// Decides from one look at the cells of a mutation task whether it is
/// complete: it is when the log holds a line and both the flag and the
/// message could be read.
pub fn settle_outcome(
    logs: CellRead<Vec<String>>,
    success: CellRead<bool>,
    message: CellRead<String>,
) -> (c: Option<Completion>)
    ensures
        c == settle_outcome_spec(logs, success, message),
{
    match logs {
        CellRead::Ready(lines) => {
            if lines.len() > 0 {
                match success {
                    CellRead::Ready(flag) => match message {
                        CellRead::Ready(text) => Some(
                            Completion::Outcome { success: flag, message: text, logs: lines },
                        ),
                        _ => None,
                    },
                    _ => None,
                }
            } else {
                None
            }
        },
        _ => None,
    }
}

/// Looks at the cells of a list task without waiting. The payload is read
/// only once the log has signalled.
fn poll_packages(packages: &ResultCell<Vec<Package>>, logs: &ResultCell<Vec<String>>) -> (c:
    Option<Completion>)
    ensures
        c matches Some(done) ==> done is Packages && done.logs().len() > 0,
{
    let log_read = logs.try_read();
    if !log_signals_completion(&log_read) {
        return None;
    }
    settle_packages(log_read, packages.try_read())
}

/// Looks at the cells of a task that lists services without waiting.
fn poll_services(services: &ResultCell<Vec<Service>>, logs: &ResultCell<Vec<String>>) -> (c:
    Option<Completion>)
    ensures
        c matches Some(done) ==> done is Services && done.logs().len() > 0,
{
    let log_read = logs.try_read();
    if !log_signals_completion(&log_read) {
        return None;
    }
    settle_services(log_read, services.try_read())
}

/// Looks at the cells of a mutation task without waiting.
fn poll_outcome(
    success: &ResultCell<bool>,
    logs: &ResultCell<Vec<String>>,
    message: &ResultCell<String>,
) -> (c: Option<Completion>)
    ensures
        c matches Some(done) ==> done is Outcome && done.logs().len() > 0,
{
    let log_read = logs.try_read();
    if !log_signals_completion(&log_read) {
        return None;
    }
    settle_outcome(log_read, success.try_read(), message.try_read())
}

impl AsyncTask {
    /// The kind of the task.
    pub open spec fn kind_spec(&self) -> TaskKind {
        match self {
            AsyncTask::LoadInstalled { .. } => TaskKind::LoadInstalled,
            AsyncTask::LoadOutdated { .. } => TaskKind::LoadOutdated,
            AsyncTask::Search { .. } => TaskKind::Search,
            AsyncTask::LoadPackageInfo { .. } => TaskKind::LoadPackageInfo,
            AsyncTask::Install { .. } => TaskKind::Install,
            AsyncTask::Uninstall { .. } => TaskKind::Uninstall,
            AsyncTask::Update { .. } => TaskKind::Update,
            AsyncTask::UpdateAll { .. } => TaskKind::UpdateAll,
            AsyncTask::CleanCache { .. } => TaskKind::CleanCache,
            AsyncTask::CleanupOldVersions { .. } => TaskKind::CleanupOldVersions,
            AsyncTask::Pin { .. } => TaskKind::Pin,
            AsyncTask::Unpin { .. } => TaskKind::Unpin,
            AsyncTask::LoadServices { .. } => TaskKind::LoadServices,
            AsyncTask::StartService { .. } => TaskKind::StartService,
            AsyncTask::StopService { .. } => TaskKind::StopService,
            AsyncTask::RestartService { .. } => TaskKind::RestartService,
            AsyncTask::ExportPackages { .. } => TaskKind::ExportPackages,
            AsyncTask::ImportPackages { .. } => TaskKind::ImportPackages,
        }
    }

    #[verifier::when_used_as_spec(kind_spec)]
    pub fn kind(&self) -> (k: TaskKind)
        ensures
            k == self.kind_spec(),
    {
        match self {
            AsyncTask::LoadInstalled { .. } => TaskKind::LoadInstalled,
            AsyncTask::LoadOutdated { .. } => TaskKind::LoadOutdated,
            AsyncTask::Search { .. } => TaskKind::Search,
            AsyncTask::LoadPackageInfo { .. } => TaskKind::LoadPackageInfo,
            AsyncTask::Install { .. } => TaskKind::Install,
            AsyncTask::Uninstall { .. } => TaskKind::Uninstall,
            AsyncTask::Update { .. } => TaskKind::Update,
            AsyncTask::UpdateAll { .. } => TaskKind::UpdateAll,
            AsyncTask::CleanCache { .. } => TaskKind::CleanCache,
            AsyncTask::CleanupOldVersions { .. } => TaskKind::CleanupOldVersions,
            AsyncTask::Pin { .. } => TaskKind::Pin,
            AsyncTask::Unpin { .. } => TaskKind::Unpin,
            AsyncTask::LoadServices { .. } => TaskKind::LoadServices,
            AsyncTask::StartService { .. } => TaskKind::StartService,
            AsyncTask::StopService { .. } => TaskKind::StopService,
            AsyncTask::RestartService { .. } => TaskKind::RestartService,
            AsyncTask::ExportPackages { .. } => TaskKind::ExportPackages,
            AsyncTask::ImportPackages { .. } => TaskKind::ImportPackages,
        }
    }

    /// One non-blocking look at a singleton task: `None` while it is
    /// outstanding, else what it left behind. What the cells show depends on
    /// the worker, so the contract says what holds of every outcome;
    /// [`settle_packages`] and [`settle_outcome`] say what is made of each
    /// reading. A package-info task is not looked at here.
    pub fn poll_one(&self) -> (c: Option<Completion>)
        ensures
            c matches Some(done) ==> done.fits(self.kind()) && done.logs().len() > 0,
            self is LoadPackageInfo ==> c is None,
    {
        match self {
            AsyncTask::LoadInstalled { packages, logs } => poll_packages(packages, logs),
            AsyncTask::LoadOutdated { packages, logs } => poll_packages(packages, logs),
            AsyncTask::Search { results, logs } => poll_packages(results, logs),
            AsyncTask::LoadPackageInfo { .. } => None,
            AsyncTask::Install { success, logs, message } => poll_outcome(success, logs, message),
            AsyncTask::Uninstall { success, logs, message } => poll_outcome(success, logs, message),
            AsyncTask::Update { success, logs, message } => poll_outcome(success, logs, message),
            AsyncTask::UpdateAll { success, logs, message } => poll_outcome(success, logs, message),
            AsyncTask::CleanCache { success, logs, message } => poll_outcome(
                success,
                logs,
                message,
            ),
            AsyncTask::CleanupOldVersions { success, logs, message } => poll_outcome(
                success,
                logs,
                message,
            ),
            AsyncTask::Pin { success, logs, message, .. } => poll_outcome(success, logs, message),
            AsyncTask::Unpin { success, logs, message, .. } => poll_outcome(
                success,
                logs,
                message,
            ),
            AsyncTask::LoadServices { services, logs } => poll_services(services, logs),
            AsyncTask::StartService { success, logs, message, .. } => poll_outcome(
                success,
                logs,
                message,
            ),
            AsyncTask::StopService { success, logs, message, .. } => poll_outcome(
                success,
                logs,
                message,
            ),
            AsyncTask::RestartService { success, logs, message, .. } => poll_outcome(
                success,
                logs,
                message,
            ),
            AsyncTask::ExportPackages { success, logs, message } => poll_outcome(
                success,
                logs,
                message,
            ),
            AsyncTask::ImportPackages { success, logs, message } => poll_outcome(
                success,
                logs,
                message,
            ),
        }
    }
}

} // verus!
