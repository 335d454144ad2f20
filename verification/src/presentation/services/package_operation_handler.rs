//! What is said about an operation on a package: when it starts, and when
//! it has ended well or badly.

use crate::domain::entities::package::PackageType;
use crate::text::{contains, has_part, join};
use vstd::prelude::*;

verus! {

/// The operations on one package.
#[derive(Debug, Clone, Copy, PartialEq, Eq, Structural)]
pub enum PackageOperation {
    Install,
    Uninstall,
    Update,
    Pin,
    Unpin,
}

impl PackageOperation {
    /// The operation as it goes on, with a capital: `Installing`.
    pub open spec fn ongoing_view(self) -> Seq<char> {
        match self {
            PackageOperation::Install => "Installing"@,
            PackageOperation::Uninstall => "Uninstalling"@,
            PackageOperation::Update => "Updating"@,
            PackageOperation::Pin => "Pinning"@,
            PackageOperation::Unpin => "Unpinning"@,
        }
    }

    /// The operation as it goes on, in small letters: `installing`.
    pub open spec fn failing_view(self) -> Seq<char> {
        match self {
            PackageOperation::Install => "installing"@,
            PackageOperation::Uninstall => "uninstalling"@,
            PackageOperation::Update => "updating"@,
            PackageOperation::Pin => "pinning"@,
            PackageOperation::Unpin => "unpinning"@,
        }
    }

    /// The operation when it is done: `installed`.
    pub open spec fn done_view(self) -> Seq<char> {
        match self {
            PackageOperation::Install => "installed"@,
            PackageOperation::Uninstall => "uninstalled"@,
            PackageOperation::Update => "updated"@,
            PackageOperation::Pin => "pinned"@,
            PackageOperation::Unpin => "unpinned"@,
        }
    }

    pub fn ongoing(self) -> (word: &'static str)
        ensures
            word@ == self.ongoing_view(),
    {
        match self {
            PackageOperation::Install => "Installing",
            PackageOperation::Uninstall => "Uninstalling",
            PackageOperation::Update => "Updating",
            PackageOperation::Pin => "Pinning",
            PackageOperation::Unpin => "Unpinning",
        }
    }

    pub fn failing(self) -> (word: &'static str)
        ensures
            word@ == self.failing_view(),
    {
        match self {
            PackageOperation::Install => "installing",
            PackageOperation::Uninstall => "uninstalling",
            PackageOperation::Update => "updating",
            PackageOperation::Pin => "pinning",
            PackageOperation::Unpin => "unpinning",
        }
    }

    pub fn done(self) -> (word: &'static str)
        ensures
            word@ == self.done_view(),
    {
        match self {
            PackageOperation::Install => "installed",
            PackageOperation::Uninstall => "uninstalled",
            PackageOperation::Update => "updated",
            PackageOperation::Pin => "pinned",
            PackageOperation::Unpin => "unpinned",
        }
    }

    /// `Installing package: <name> (<family>)`.
    pub open spec fn start_line(self, name: Seq<char>, package_type: PackageType) -> Seq<char> {
        self.ongoing_view() + " package: "@ + name + " ("@ + package_type.label_view() + ")"@
    }

    /// `Successfully installed <name>`.
    pub open spec fn success_line(self, name: Seq<char>) -> Seq<char> {
        "Successfully "@ + self.done_view() + " "@ + name
    }

    /// `<name> installed successfully`.
    pub open spec fn success_message(self, name: Seq<char>) -> Seq<char> {
        name + " "@ + self.done_view() + " successfully"@
    }

    /// `Error installing <name>: <error>`.
    pub open spec fn failure_line(self, name: Seq<char>, error: Seq<char>) -> Seq<char> {
        "Error "@ + self.failing_view() + " "@ + name + ": "@ + error
    }

    /// The log line that opens the operation.
    pub fn start_message(self, package_name: &str, package_type: PackageType) -> (line: String)
        ensures
            line@ == self.start_line(package_name@, package_type),
    {
        let a = join(self.ongoing(), " package: ");
        let b = join(a.as_str(), package_name);
        let c = join(b.as_str(), " (");
        let d = join(c.as_str(), package_type.label());
        join(d.as_str(), ")")
    }

    /// The log line of a success.
    pub fn succeeded_line(self, package_name: &str) -> (line: String)
        ensures
            line@ == self.success_line(package_name@),
    {
        let a = join("Successfully ", self.done());
        let b = join(a.as_str(), " ");
        join(b.as_str(), package_name)
    }

    /// The status message of a success.
    pub fn succeeded_message(self, package_name: &str) -> (line: String)
        ensures
            line@ == self.success_message(package_name@),
    {
        let a = join(package_name, " ");
        let b = join(a.as_str(), self.done());
        join(b.as_str(), " successfully")
    }

    /// The log line, and status message, of a failure.
    pub fn failed_line(self, package_name: &str, error: &str) -> (line: String)
        ensures
            line@ == self.failure_line(package_name@, error@),
    {
        let a = join("Error ", self.failing());
        let b = join(a.as_str(), " ");
        let c = join(b.as_str(), package_name);
        let d = join(c.as_str(), ": ");
        join(d.as_str(), error)
    }
}

/// How an operation on a package ended, with what it logged.
pub struct OperationResult {
    pub success: bool,
    pub message: String,
    pub log_messages: Vec<String>,
}

impl OperationResult {
    /// The result of an operation on a package that ended with `error`, or
    /// well where there is none: the log holds the line that opened the
    /// operation and the line of its end.
    pub fn conclude(
        operation: PackageOperation,
        package_name: &str,
        package_type: PackageType,
        error: Option<String>,
    ) -> (result: Self)
        ensures
            result.success == (error is None),
            result.log_messages@.len() == 2,
            result.log_messages@[0]@ == operation.start_line(package_name@, package_type),
            match error {
                None => result.message@ == operation.success_message(package_name@)
                    && result.log_messages@[1]@ == operation.success_line(package_name@),
                Some(why) => result.message@ == operation.failure_line(package_name@, why@)
                    && result.log_messages@[1]@ == result.message@,
            },
    {
        let mut log_messages: Vec<String> = Vec::new();
        log_messages.push(operation.start_message(package_name, package_type));
        match error {
            None => {
                log_messages.push(operation.succeeded_line(package_name));
                OperationResult {
                    success: true,
                    message: operation.succeeded_message(package_name),
                    log_messages,
                }
            },
            Some(why) => {
                let line = operation.failed_line(package_name, why.as_str());
                log_messages.push(line.clone());
                OperationResult { success: false, message: line, log_messages }
            },
        }
    }
}

/// Whether an error message tells that the administrator's password is
/// wanted or was wrong.
pub open spec fn tells_of_password(message: Seq<char>) -> bool {
    has_part(message, "authentication failure"@) || has_part(message, "sudo"@) || has_part(
        message,
        "password"@,
    ) || has_part(message, "Permission denied"@) || has_part(message, "Incorrect password"@)
        || has_part(message, "incorrect password attempt"@) || has_part(
        message,
        "sorry, try again"@,
    ) || has_part(message, "sudo: a password is required"@)
}

/// Whether an error message tells that the administrator's password is
/// wanted or was wrong.
pub fn is_password_error(error_msg: &str) -> (wanted: bool)
    ensures
        wanted == tells_of_password(error_msg@),
{
    contains(error_msg, "authentication failure") || contains(error_msg, "sudo") || contains(
        error_msg,
        "password",
    ) || contains(error_msg, "Permission denied") || contains(error_msg, "Incorrect password")
        || contains(error_msg, "incorrect password attempt") || contains(
        error_msg,
        "sorry, try again",
    ) || contains(error_msg, "sudo: a password is required")
}

/// What follows the end of an install or uninstall.
#[derive(Debug, Clone, Copy, PartialEq, Eq, Structural)]
pub enum FollowUp {
    /// It went well: the lists are brought up to date.
    Settle,
    /// It failed for want of the password: the user is asked for it and the
    /// operation stays pending.
    AskPassword,
    /// It failed otherwise: the operation is forgotten.
    Forget,
}

/// What follows the end of an install or uninstall that reported `success`
/// and `message`.
pub fn follow_up(success: bool, message: &str) -> (next: FollowUp)
    ensures
        next == if success {
            FollowUp::Settle
        } else if tells_of_password(message@) {
            FollowUp::AskPassword
        } else {
            FollowUp::Forget
        },
{
    if success {
        FollowUp::Settle
    } else if is_password_error(message) {
        FollowUp::AskPassword
    } else {
        FollowUp::Forget
    }
}

} // verus!
