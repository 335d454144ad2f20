//! The `brew` command line: which arguments each operation takes, and what
//! the outcome of a run means. Running the command is the caller's part.

use crate::domain::entities::package::PackageType;
use crate::text::{
    contains, has_part, join, lemma_texts_push, lowercased, texts, to_lowercase,
};
use vstd::prelude::*;

verus! {

/// What a successful run of `brew` printed.
pub struct BrewOutput {
    pub stdout: String,
    pub stderr: String,
}

/// Why a run of `brew` failed.
pub enum BrewError {
    /// The operation needs the administrator's password.
    PasswordRequired,
    /// The password that was given is wrong.
    IncorrectPassword,
    /// Any other failure, with what the command wrote to its error stream.
    Failed { context: String, detail: String },
    /// What the command printed is no JSON; `detail` is the parser's word.
    InvalidJson { detail: String },
    /// The command's JSON holds nothing about the package.
    NotFound { name: String },
}

impl BrewError {
    /// The failure in words.
    pub open spec fn message_view(&self) -> Seq<char> {
        match self {
            BrewError::PasswordRequired => "a password is required"@,
            BrewError::IncorrectPassword => "Incorrect password"@,
            BrewError::Failed { context, detail } => context@ + ": "@ + detail@,
            BrewError::InvalidJson { detail } => detail@,
            BrewError::NotFound { name } => "Package info not found for "@ + name@,
        }
    }

    /// The failure in words.
    pub fn message(&self) -> (text: String)
        ensures
            text@ == self.message_view(),
    {
        match self {
            BrewError::PasswordRequired => "a password is required".to_owned(),
            BrewError::IncorrectPassword => "Incorrect password".to_owned(),
            BrewError::Failed { context, detail } => {
                let head = join(context.as_str(), ": ");
                join(head.as_str(), detail.as_str())
            },
            BrewError::InvalidJson { detail } => detail.clone(),
            BrewError::NotFound { name } => join("Package info not found for ", name.as_str()),
        }
    }
}

pub struct BrewCommand;

/// Whether what a failed run printed shows that it wanted a password: the
/// text, in lower case, speaks of a password, of sudo, of a permission that
/// was denied, of authentication or of a privilege.
pub open spec fn asks_for_password(lower: Seq<char>) -> bool {
    has_part(lower, "password"@) || has_part(lower, "sudo"@) || has_part(
        lower,
        "permission denied"@,
    ) || has_part(lower, "authentication"@) || has_part(lower, "privilege"@)
}

/// Whether the error stream of a run with a password shows that the
/// password was wrong.
pub open spec fn rejects_password(stderr: Seq<char>) -> bool {
    has_part(stderr, "password is incorrect"@) || has_part(
        stderr,
        "sudo: 1 incorrect password attempt"@,
    ) || has_part(stderr, "sorry, try again"@) || has_part(stderr, "incorrect password"@)
}

/// One step of quoting a password for the shell: a single quote becomes
/// `'\''`, any other character stays.
pub open spec fn quoted(password: Seq<char>, n: nat) -> Seq<char>
    decreases n,
{
    if n == 0 {
        Seq::empty()
    } else {
        let before = quoted(password, (n - 1) as nat);
        if password[n - 1] == '\'' {
            before.push('\'').push('\\').push('\'').push('\'')
        } else {
            before.push(password[n - 1])
        }
    }
}

impl BrewCommand {
    /// The option that restricts a command to one family of packages.
    pub open spec fn type_arg_view(package_type: PackageType) -> Seq<char> {
        match package_type {
            PackageType::Formula => "--formula"@,
            PackageType::Cask => "--cask"@,
        }
    }

    /// The option that restricts a command to one family of packages.
    pub fn get_package_type_arg(package_type: PackageType) -> (arg: &'static str)
        ensures
            arg@ == Self::type_arg_view(package_type),
    {
        match package_type {
            PackageType::Formula => "--formula",
            PackageType::Cask => "--cask",
        }
    }

    fn args2(first: &str, second: &str) -> (args: Vec<String>)
        ensures
            texts(args@) == seq![first@, second@],
    {
        let mut args: Vec<String> = Vec::new();
        args.push(first.to_owned());
        args.push(second.to_owned());
        assert(texts(args@) =~= seq![first@, second@]);
        args
    }

    fn args3(first: &str, second: &str, third: &str) -> (args: Vec<String>)
        ensures
            texts(args@) == seq![first@, second@, third@],
    {
        let mut args: Vec<String> = Vec::new();
        args.push(first.to_owned());
        args.push(second.to_owned());
        args.push(third.to_owned());
        assert(texts(args@) =~= seq![first@, second@, third@]);
        args
    }

    /// `brew list <family> --versions`.
    pub fn list_packages(package_type: PackageType) -> (args: Vec<String>)
        ensures
            texts(args@) == seq!["list"@, Self::type_arg_view(package_type), "--versions"@],
    {
        Self::args3("list", Self::get_package_type_arg(package_type), "--versions")
    }

    /// `brew info --json=v2 <family> <name>`.
    pub fn get_package_info(name: &str, package_type: PackageType) -> (args: Vec<String>)
        ensures
            texts(args@) == seq![
                "info"@,
                "--json=v2"@,
                Self::type_arg_view(package_type),
                name@,
            ],
    {
        let mut args = Self::args3("info", "--json=v2", Self::get_package_type_arg(package_type));
        let last = name.to_owned();
        proof {
            lemma_texts_push(args@, last);
        }
        args.push(last);
        assert(texts(args@) =~= seq![
            "info"@,
            "--json=v2"@,
            Self::type_arg_view(package_type),
            name@,
        ]);
        args
    }

    /// `brew outdated <family> --json=v2`.
    pub fn outdated_packages(package_type: PackageType) -> (args: Vec<String>)
        ensures
            texts(args@) == seq!["outdated"@, Self::type_arg_view(package_type), "--json=v2"@],
    {
        Self::args3("outdated", Self::get_package_type_arg(package_type), "--json=v2")
    }

    /// `brew install <family> <name>`.
    pub fn install_package(name: &str, package_type: PackageType) -> (args: Vec<String>)
        ensures
            texts(args@) == seq!["install"@, Self::type_arg_view(package_type), name@],
    {
        Self::args3("install", Self::get_package_type_arg(package_type), name)
    }

    /// `brew install <family> <name>`, to be run with the password script
    /// that [`BrewCommand::askpass_script`] gives for `password`.
    pub fn install_package_with_password(
        name: &str,
        package_type: PackageType,
        password: &str,
    ) -> (run: (Vec<String>, String))
        ensures
            texts(run.0@) == seq!["install"@, Self::type_arg_view(package_type), name@],
            run.1@ == "#!/bin/bash\necho '"@ + quoted(password@, password@.len()) + "'\n"@,
    {
        (Self::install_package(name, package_type), Self::askpass_script(password))
    }

    /// `brew uninstall <family> <name>`.
    pub fn uninstall_package(name: &str, package_type: PackageType) -> (args: Vec<String>)
        ensures
            texts(args@) == seq!["uninstall"@, Self::type_arg_view(package_type), name@],
    {
        Self::args3("uninstall", Self::get_package_type_arg(package_type), name)
    }

    /// `brew uninstall <family> <name>`, to be run with the password script
    /// that [`BrewCommand::askpass_script`] gives for `password`.
    pub fn uninstall_package_with_password(
        name: &str,
        package_type: PackageType,
        password: &str,
    ) -> (run: (Vec<String>, String))
        ensures
            texts(run.0@) == seq!["uninstall"@, Self::type_arg_view(package_type), name@],
            run.1@ == "#!/bin/bash\necho '"@ + quoted(password@, password@.len()) + "'\n"@,
    {
        (Self::uninstall_package(name, package_type), Self::askpass_script(password))
    }

    /// `brew upgrade <name>`.
    pub fn upgrade_package(name: &str) -> (args: Vec<String>)
        ensures
            texts(args@) == seq!["upgrade"@, name@],
    {
        Self::args2("upgrade", name)
    }

    /// `brew upgrade`.
    pub fn upgrade_all() -> (args: Vec<String>)
        ensures
            texts(args@) == seq!["upgrade"@],
    {
        let mut args: Vec<String> = Vec::new();
        args.push("upgrade".to_owned());
        assert(texts(args@) =~= seq!["upgrade"@]);
        args
    }

    /// `brew cleanup -s --dry-run`.
    pub fn cleanup_dry_run() -> (args: Vec<String>)
        ensures
            texts(args@) == seq!["cleanup"@, "-s"@, "--dry-run"@],
    {
        Self::args3("cleanup", "-s", "--dry-run")
    }

    /// `brew cleanup -s`.
    pub fn cleanup() -> (args: Vec<String>)
        ensures
            texts(args@) == seq!["cleanup"@, "-s"@],
    {
        Self::args2("cleanup", "-s")
    }

    /// `brew cleanup --prune=all --dry-run`.
    pub fn cleanup_old_versions_dry_run() -> (args: Vec<String>)
        ensures
            texts(args@) == seq!["cleanup"@, "--prune=all"@, "--dry-run"@],
    {
        Self::args3("cleanup", "--prune=all", "--dry-run")
    }

    /// `brew cleanup --prune=all`.
    pub fn cleanup_old_versions() -> (args: Vec<String>)
        ensures
            texts(args@) == seq!["cleanup"@, "--prune=all"@],
    {
        Self::args2("cleanup", "--prune=all")
    }

    /// `brew search <family> <query>`.
    pub fn search_packages(query: &str, package_type: PackageType) -> (args: Vec<String>)
        ensures
            texts(args@) == seq!["search"@, Self::type_arg_view(package_type), query@],
    {
        Self::args3("search", Self::get_package_type_arg(package_type), query)
    }

    /// `brew list --pinned`.
    pub fn list_pinned() -> (args: Vec<String>)
        ensures
            texts(args@) == seq!["list"@, "--pinned"@],
    {
        Self::args2("list", "--pinned")
    }

    /// `brew pin <name>`.
    pub fn pin_package(name: &str) -> (args: Vec<String>)
        ensures
            texts(args@) == seq!["pin"@, name@],
    {
        Self::args2("pin", name)
    }

    /// `brew unpin <name>`.
    pub fn unpin_package(name: &str) -> (args: Vec<String>)
        ensures
            texts(args@) == seq!["unpin"@, name@],
    {
        Self::args2("unpin", name)
    }

    /// `brew services list`.
    pub fn list_services() -> (args: Vec<String>)
        ensures
            texts(args@) == seq!["services"@, "list"@],
    {
        Self::args2("services", "list")
    }

    /// `brew services start <name>`.
    pub fn start_service(name: &str) -> (args: Vec<String>)
        ensures
            texts(args@) == seq!["services"@, "start"@, name@],
    {
        Self::args3("services", "start", name)
    }

    /// `brew services stop <name>`.
    pub fn stop_service(name: &str) -> (args: Vec<String>)
        ensures
            texts(args@) == seq!["services"@, "stop"@, name@],
    {
        Self::args3("services", "stop", name)
    }

    /// `brew services restart <name>`.
    pub fn restart_service(name: &str) -> (args: Vec<String>)
        ensures
            texts(args@) == seq!["services"@, "restart"@, name@],
    {
        Self::args3("services", "restart", name)
    }

    /// The script that hands `password` to sudo: it echoes the password,
    /// quoted for the shell.
    pub fn askpass_script(password: &str) -> (script: String)
        ensures
            script@ == "#!/bin/bash\necho '"@ + quoted(password@, password@.len()) + "'\n"@,
    {
        let mut quoted_password = String::new();
        for c in it: password.chars()
            invariant
                it.seq() == password@,
                quoted_password@ == quoted(password@, it.index() as nat),
        {
            if c == '\'' {
                quoted_password.push('\'');
                quoted_password.push('\\');
                quoted_password.push('\'');
                quoted_password.push('\'');
            } else {
                quoted_password.push(c);
            }
        }
        let head = join("#!/bin/bash\necho '", quoted_password.as_str());
        join(head.as_str(), "'\n")
    }

    /// What a run without special handling means: its output where it
    /// succeeded, else a failure with its error stream.
    pub fn read_plain(succeeded: bool, stdout: String, stderr: String) -> (outcome: Result<
        String,
        BrewError,
    >)
        ensures
            succeeded ==> outcome == Ok::<String, BrewError>(stdout),
            !succeeded ==> (outcome matches Err(BrewError::Failed { context, detail }) && context@
                == "Brew command failed"@ && detail == stderr),
    {
        if !succeeded {
            return Err(
                BrewError::Failed { context: "Brew command failed".to_owned(), detail: stderr },
            );
        }
        Ok(stdout)
    }

    /// What a run means whose failure is described by `context`.
    pub fn read_labelled(succeeded: bool, stdout: String, stderr: String, context: &str) -> (outcome:
        Result<BrewOutput, BrewError>)
        ensures
            succeeded ==> (outcome matches Ok(output) && output.stdout == stdout && output.stderr
                == stderr),
            !succeeded ==> (outcome matches Err(BrewError::Failed { context: label, detail })
                && label@ == context@ && detail == stderr),
    {
        if !succeeded {
            return Err(BrewError::Failed { context: context.to_owned(), detail: stderr });
        }
        Ok(BrewOutput { stdout, stderr })
    }

    /// What a run means that was barred from asking for a password. A
    /// failed run wanted a password if `lower` tells so, where `lower` is
    /// the output and the error stream, with a space between, in lower case.
    pub fn read_barred(succeeded: bool, stdout: String, stderr: String, lower: &str) -> (outcome:
        Result<BrewOutput, BrewError>)
        ensures
            succeeded ==> (outcome matches Ok(output) && output.stdout == stdout && output.stderr
                == stderr),
            !succeeded && asks_for_password(lower@) ==> outcome matches Err(
                BrewError::PasswordRequired,
            ),
            !succeeded && !asks_for_password(lower@) ==> (outcome matches Err(
                BrewError::Failed { context, detail },
            ) && context@ == "Brew command failed"@ && detail == stderr),
    {
        if !succeeded {
            if contains(lower, "password") || contains(lower, "sudo") || contains(
                lower,
                "permission denied",
            ) || contains(lower, "authentication") || contains(lower, "privilege") {
                return Err(BrewError::PasswordRequired);
            }
            return Err(
                BrewError::Failed { context: "Brew command failed".to_owned(), detail: stderr },
            );
        }
        Ok(BrewOutput { stdout, stderr })
    }

    /// What a run means that was barred from asking for a password.
    pub fn read_with_output(succeeded: bool, stdout: String, stderr: String) -> (outcome: Result<
        BrewOutput,
        BrewError,
    >)
        ensures
            succeeded ==> (outcome matches Ok(output) && output.stdout == stdout && output.stderr
                == stderr),
            !succeeded && asks_for_password(lowercased(stdout@ + " "@ + stderr@)) ==> outcome matches Err(
                BrewError::PasswordRequired,
            ),
            !succeeded && !asks_for_password(lowercased(stdout@ + " "@ + stderr@)) ==> (
            outcome matches Err(BrewError::Failed { context, detail }) && context@
                == "Brew command failed"@ && detail == stderr),
    {
        if succeeded {
            return Ok(BrewOutput { stdout, stderr });
        }
        let head = join(stdout.as_str(), " ");
        let combined = join(head.as_str(), stderr.as_str());
        let lower = to_lowercase(combined.as_str());
        Self::read_barred(succeeded, stdout, stderr, lower.as_str())
    }

    /// What a run with a password means: a failed run whose error stream
    /// tells of a wrong password fails as such.
    pub fn read_with_password(succeeded: bool, stdout: String, stderr: String) -> (outcome: Result<
        BrewOutput,
        BrewError,
    >)
        ensures
            succeeded ==> (outcome matches Ok(output) && output.stdout == stdout && output.stderr
                == stderr),
            !succeeded && rejects_password(stderr@) ==> outcome matches Err(
                BrewError::IncorrectPassword,
            ),
            !succeeded && !rejects_password(stderr@) ==> (outcome matches Err(
                BrewError::Failed { context, detail },
            ) && context@ == "Brew command failed"@ && detail == stderr),
    {
        if !succeeded {
            if contains(stderr.as_str(), "password is incorrect") || contains(
                stderr.as_str(),
                "sudo: 1 incorrect password attempt",
            ) || contains(stderr.as_str(), "sorry, try again") || contains(
                stderr.as_str(),
                "incorrect password",
            ) {
                return Err(BrewError::IncorrectPassword);
            }
            return Err(
                BrewError::Failed { context: "Brew command failed".to_owned(), detail: stderr },
            );
        }
        Ok(BrewOutput { stdout, stderr })
    }
}

} // verus!
