use brewsty::domain::entities::{PackageType, ServiceStatus};
use brewsty::infrastructure::brew::{
    BrewCommand, BrewError, BrewPackageListRepository, BrewPackageRepository,
    BrewServiceRepository,
};
use brewsty::text::{
    chars_of, contains, holds_text, join, same_text, skip_chars, split_lines, split_words,
    starts_with, string_of, sub_string, trim,
};

fn strings(items: &[&str]) -> Vec<String> {
    items.iter().map(|s| s.to_string()).collect()
}

#[test]
fn lines_end_at_line_feeds() {
    assert_eq!(split_lines("a\nb\nc"), strings(&["a", "b", "c"]));
    assert_eq!(split_lines("a\nb\n"), strings(&["a", "b"]));
    assert_eq!(split_lines("a\r\nb\r\n"), strings(&["a", "b"]));
    assert_eq!(split_lines("a\n\nb"), strings(&["a", "", "b"]));
    assert_eq!(split_lines("\n"), strings(&[""]));
    assert_eq!(split_lines(""), Vec::<String>::new());
    // A carriage return that no line feed follows stays.
    assert_eq!(split_lines("a\rb\nc\r"), strings(&["a\rb", "c\r"]));
    assert_eq!(split_lines("a\r\r\n"), strings(&["a\r"]));
    assert_eq!(split_lines("\r\n"), strings(&[""]));
}

#[test]
fn lines_agree_with_std() {
    for text in ["", "x", "x\n", "\n\n", "a\r\nb", "a\n\rb\r", "é\nü\r\n", " a \n b "] {
        let expected: Vec<String> = text.lines().map(|l| l.to_string()).collect();
        assert_eq!(split_lines(text), expected, "for {:?}", text);
    }
}

#[test]
fn words_are_cut_at_whitespace() {
    assert_eq!(split_words("wget 1.21.4"), strings(&["wget", "1.21.4"]));
    assert_eq!(split_words("  a \t b\u{a0}c  "), strings(&["a", "b", "c"]));
    assert_eq!(split_words(""), Vec::<String>::new());
    assert_eq!(split_words(" \t "), Vec::<String>::new());
    assert_eq!(split_words("one"), strings(&["one"]));
    for text in ["a b", " a  b ", "\u{3000}x\u{2003}y", "tab\there"] {
        let expected: Vec<String> = text.split_whitespace().map(|w| w.to_string()).collect();
        assert_eq!(split_words(text), expected, "for {:?}", text);
    }
}

#[test]
fn trim_takes_whitespace_off_both_ends() {
    assert_eq!(trim("  a b  "), "a b");
    assert_eq!(trim("a"), "a");
    assert_eq!(trim(""), "");
    assert_eq!(trim(" \t\n"), "");
    assert_eq!(trim("\u{a0}x\u{2028}"), "x");
    for text in [" x", "x ", " x y ", "\t\tz"] {
        assert_eq!(trim(text), text.trim());
    }
}

#[test]
fn search_in_text() {
    assert!(contains("sudo: a password is required", "password"));
    assert!(contains("abc", ""));
    assert!(contains("", ""));
    assert!(!contains("", "a"));
    assert!(!contains("abc", "abcd"));
    assert!(contains("abc", "abc"));
    assert!(contains("aab", "ab"));
    assert!(!contains("Password", "password"));
    assert!(starts_with("==> Caveats", "==>"));
    assert!(!starts_with(" ==>", "==>"));
    assert!(starts_with("a", ""));
    assert!(!starts_with("a", "ab"));
}

#[test]
fn strings_and_characters() {
    assert!(same_text("a", "a"));
    assert!(!same_text("a", "b"));
    assert!(!same_text("a", "a "));
    assert_eq!(chars_of("héllo"), vec!['h', 'é', 'l', 'l', 'o']);
    assert_eq!(string_of(&vec!['o', 'k']), "ok");
    assert_eq!(join("ab", "cd"), "abcd");
    assert_eq!(join("", "x"), "x");
    assert_eq!(skip_chars("héllo", 2), "llo");
    assert_eq!(skip_chars("abc", 3), "");
    assert_eq!(sub_string(&chars_of("héllo"), 1, 3), "él");
    assert!(holds_text(&strings(&["a", "b"]), "b"));
    assert!(!holds_text(&strings(&["a", "b"]), "c"));
    assert!(!holds_text(&Vec::new(), ""));
}

#[test]
fn command_lines() {
    assert_eq!(BrewCommand::get_package_type_arg(PackageType::Formula), "--formula");
    assert_eq!(BrewCommand::get_package_type_arg(PackageType::Cask), "--cask");
    assert_eq!(
        BrewCommand::list_packages(PackageType::Formula),
        strings(&["list", "--formula", "--versions"])
    );
    assert_eq!(
        BrewCommand::get_package_info("wget", PackageType::Cask),
        strings(&["info", "--json=v2", "--cask", "wget"])
    );
    assert_eq!(
        BrewCommand::outdated_packages(PackageType::Cask),
        strings(&["outdated", "--cask", "--json=v2"])
    );
    assert_eq!(
        BrewCommand::install_package("wget", PackageType::Formula),
        strings(&["install", "--formula", "wget"])
    );
    assert_eq!(
        BrewCommand::uninstall_package("firefox", PackageType::Cask),
        strings(&["uninstall", "--cask", "firefox"])
    );
    assert_eq!(BrewCommand::upgrade_package("wget"), strings(&["upgrade", "wget"]));
    assert_eq!(BrewCommand::upgrade_all(), strings(&["upgrade"]));
    assert_eq!(BrewCommand::cleanup_dry_run(), strings(&["cleanup", "-s", "--dry-run"]));
    assert_eq!(BrewCommand::cleanup(), strings(&["cleanup", "-s"]));
    assert_eq!(
        BrewCommand::cleanup_old_versions_dry_run(),
        strings(&["cleanup", "--prune=all", "--dry-run"])
    );
    assert_eq!(BrewCommand::cleanup_old_versions(), strings(&["cleanup", "--prune=all"]));
    assert_eq!(
        BrewCommand::search_packages("py", PackageType::Formula),
        strings(&["search", "--formula", "py"])
    );
    assert_eq!(BrewCommand::list_pinned(), strings(&["list", "--pinned"]));
    assert_eq!(BrewCommand::pin_package("node"), strings(&["pin", "node"]));
    assert_eq!(BrewCommand::unpin_package("node"), strings(&["unpin", "node"]));
}

#[test]
fn askpass_script_quotes_the_password() {
    assert_eq!(BrewCommand::askpass_script("secret"), "#!/bin/bash\necho 'secret'\n");
    assert_eq!(BrewCommand::askpass_script("it's"), "#!/bin/bash\necho 'it'\\''s'\n");
    assert_eq!(BrewCommand::askpass_script(""), "#!/bin/bash\necho ''\n");
    assert_eq!(BrewCommand::askpass_script("''"), "#!/bin/bash\necho ''\\'''\\'''\n");
    let (args, script) =
        BrewCommand::install_package_with_password("wget", PackageType::Formula, "p'w");
    assert_eq!(args, strings(&["install", "--formula", "wget"]));
    assert_eq!(script, format!("#!/bin/bash\necho '{}'\n", "p'w".replace("'", "'\\''")));
    let (args, script) =
        BrewCommand::uninstall_package_with_password("vlc", PackageType::Cask, "pw");
    assert_eq!(args, strings(&["uninstall", "--cask", "vlc"]));
    assert_eq!(script, "#!/bin/bash\necho 'pw'\n");
}

#[test]
fn outcome_of_a_plain_run() {
    assert_eq!(
        BrewCommand::read_plain(true, "out".to_string(), "warn".to_string()).ok(),
        Some("out".to_string())
    );
    match BrewCommand::read_plain(false, "out".to_string(), "boom".to_string()) {
        Err(error) => assert_eq!(error.message(), "Brew command failed: boom"),
        Ok(_) => panic!("the run failed"),
    }
    match BrewCommand::read_labelled(false, String::new(), "no".to_string(), "Failed to pin package")
    {
        Err(error) => assert_eq!(error.message(), "Failed to pin package: no"),
        Ok(_) => panic!("the run failed"),
    }
    match BrewCommand::read_labelled(true, "o".to_string(), "e".to_string(), "x") {
        Ok(output) => {
            assert_eq!(output.stdout, "o");
            assert_eq!(output.stderr, "e");
        }
        Err(_) => panic!("the run succeeded"),
    }
}

#[test]
fn a_barred_run_that_wants_a_password() {
    for stderr in [
        "sudo: a terminal is required",
        "Password:",
        "Error: Permission denied @ dir_s_mkdir",
        "AUTHENTICATION failure",
        "needs more Privileges",
    ] {
        match BrewCommand::read_with_output(false, String::new(), stderr.to_string()) {
            Err(BrewError::PasswordRequired) => {}
            _ => panic!("{:?} asks for a password", stderr),
        }
    }
    // The output counts as well as the error stream.
    assert!(matches!(
        BrewCommand::read_with_output(false, "SUDO".to_string(), String::new()),
        Err(BrewError::PasswordRequired)
    ));
    match BrewCommand::read_with_output(false, "x".to_string(), "No such formula".to_string()) {
        Err(BrewError::Failed { context, detail }) => {
            assert_eq!(context, "Brew command failed");
            assert_eq!(detail, "No such formula");
        }
        _ => panic!("an ordinary failure"),
    }
    assert!(BrewCommand::read_with_output(true, "sudo".to_string(), "password".to_string()).is_ok());
    // `read_barred` takes the lowered text as it is.
    assert!(matches!(
        BrewCommand::read_barred(false, String::new(), String::new(), "SUDO"),
        Err(BrewError::Failed { .. })
    ));
    assert_eq!(BrewError::PasswordRequired.message(), "a password is required");
}

#[test]
fn a_run_with_a_wrong_password() {
    for stderr in [
        "sudo: 1 incorrect password attempt",
        "Sorry, the password is incorrect",
        "sorry, try again.",
        "incorrect password",
    ] {
        match BrewCommand::read_with_password(false, String::new(), stderr.to_string()) {
            Err(error) => {
                assert!(matches!(error, BrewError::IncorrectPassword));
                assert_eq!(error.message(), "Incorrect password");
            }
            Ok(_) => panic!("the run failed"),
        }
    }
    assert!(matches!(
        BrewCommand::read_with_password(false, String::new(), "Sorry, Try Again".to_string()),
        Err(BrewError::Failed { .. })
    ));
    assert!(BrewCommand::read_with_password(true, String::new(), "incorrect password".to_string())
        .is_ok());
}

#[test]
fn installed_packages_from_plain_text() {
    let repository = BrewPackageRepository::new();
    let output = "wget 1.21.4\n\nopenssl@3 3.2.1 3.1.0\nlonely\n  node   21.6.0  \n";
    let pinned = strings(&["node"]);
    let packages =
        repository.parse_installed_packages_plain_text(output, PackageType::Formula, &pinned);
    assert_eq!(packages.len(), 3);
    assert_eq!(packages[0].name, "wget");
    assert_eq!(packages[0].version.as_deref(), Some("1.21.4"));
    assert!(packages[0].installed);
    assert!(!packages[0].pinned);
    assert!(!packages[0].outdated);
    assert_eq!(packages[0].package_type, PackageType::Formula);
    assert_eq!(packages[1].name, "openssl@3");
    assert_eq!(packages[1].version.as_deref(), Some("3.2.1"));
    assert_eq!(packages[2].name, "node");
    assert!(packages[2].pinned);
    assert!(packages[2].available_version.is_none());
    assert!(repository
        .parse_installed_packages_plain_text("", PackageType::Cask, &Vec::new())
        .is_empty());
}

#[test]
fn installed_packages_with_the_pinned_listing() {
    let repository = BrewPackageRepository::new();
    let packages = repository.parse_installed_packages(
        "a 1\nb 2\n",
        PackageType::Formula,
        "  b  \n\n",
    );
    assert_eq!(packages.len(), 2);
    assert!(!packages[0].pinned);
    assert!(packages[1].pinned);
    assert_eq!(repository.parse_pinned_packages(" x \n\ny\n"), strings(&["x", "y"]));
    // A line of blanks is not empty: it names the empty name.
    assert_eq!(repository.parse_pinned_packages("  \n"), strings(&[""]));
}

#[test]
fn search_results_name_packages() {
    let repository = BrewPackageRepository::new();
    let packages = repository.parse_search_results("wget\n wget2 \n\n", PackageType::Cask);
    assert_eq!(packages.len(), 2);
    assert_eq!(packages[0].name, "wget");
    assert_eq!(packages[1].name, "wget2");
    assert!(packages.iter().all(|p| p.version.is_none() && !p.installed));
    assert!(packages.iter().all(|p| p.package_type == PackageType::Cask));
}

#[test]
fn outdated_packages_from_json() {
    let repository = BrewPackageRepository::new();
    let json = r#"{
        "formulae": [
            {"name": "wget", "installed_versions": ["1.20", "1.19"], "current_version": "1.21"},
            {"name": "jq", "installed_versions": [], "current_version": "1.7"},
            {"installed_versions": ["1"]},
            {"name": 7},
            {"name": "node", "installed_versions": "x"}
        ],
        "casks": [{"name": "firefox", "installed_versions": ["120"], "current_version": "121"}]
    }"#;
    let pinned = strings(&["jq"]);
    let packages = repository
        .parse_outdated_json(json, PackageType::Formula, &pinned)
        .ok()
        .expect("the text is JSON");
    assert_eq!(packages.len(), 3);
    assert_eq!(packages[0].name, "wget");
    assert_eq!(packages[0].version.as_deref(), Some("1.20"));
    assert_eq!(packages[0].available_version.as_deref(), Some("1.21"));
    assert!(packages[0].outdated && packages[0].installed && !packages[0].pinned);
    assert_eq!(packages[1].name, "jq");
    assert_eq!(packages[1].version.as_deref(), Some(""));
    assert!(packages[1].pinned);
    assert_eq!(packages[2].name, "node");
    assert_eq!(packages[2].version.as_deref(), Some(""));
    assert!(!packages[2].outdated);
    assert!(packages[2].available_version.is_none());

    let casks = repository
        .parse_outdated_json(json, PackageType::Cask, &pinned)
        .ok()
        .expect("the text is JSON");
    assert_eq!(casks.len(), 1);
    assert_eq!(casks[0].name, "firefox");
    assert_eq!(casks[0].package_type, PackageType::Cask);
}

#[test]
fn installed_key_reads_the_version_of_an_object() {
    let repository = BrewPackageRepository::new();
    let json = r#"{"formulae": [{"name": "wget", "installed": [{"version": "1.21.4"}]}]}"#;
    let packages = repository
        .parse_packages_from_json(json, PackageType::Formula, "installed", &Vec::new())
        .ok()
        .expect("the text is JSON");
    assert_eq!(packages[0].version.as_deref(), Some("1.21.4"));
    let other = repository
        .parse_packages_from_json(json, PackageType::Formula, "versions", &Vec::new())
        .ok()
        .expect("the text is JSON");
    assert_eq!(other[0].version.as_deref(), Some(""));
    let value: serde_json::Value = serde_json::from_str(json).unwrap();
    let item = &value["formulae"][0];
    let package =
        BrewPackageRepository::extract_package_item(item, PackageType::Formula, "installed", true)
            .expect("the item has a name");
    assert_eq!(package.name, "wget");
    assert!(package.pinned);
    assert!(BrewPackageRepository::extract_package_item(
        &value,
        PackageType::Formula,
        "installed",
        false
    )
    .is_none());
    assert_eq!(
        repository.packages_from_value(&value, PackageType::Formula, "installed", &Vec::new()).len(),
        1
    );
}

#[test]
fn json_without_a_list_gives_no_packages() {
    let repository = BrewPackageRepository::new();
    for json in ["{}", "[]", "null", r#"{"formulae": {}}"#, r#"{"formulae": []}"#] {
        let packages = repository
            .parse_outdated_json(json, PackageType::Formula, &Vec::new())
            .ok()
            .expect("the text is JSON");
        assert!(packages.is_empty(), "for {}", json);
    }
}

#[test]
fn text_that_is_no_json_is_an_error() {
    let repository = BrewPackageRepository::new();
    match repository.parse_outdated_json("{not json", PackageType::Formula, &Vec::new()) {
        Err(BrewError::InvalidJson { detail }) => {
            assert!(!detail.is_empty());
            assert_ne!(detail, "{not json");
        }
        _ => panic!("the text is no JSON"),
    }
    assert!(matches!(
        repository.parse_package_info("wget", "", PackageType::Formula),
        Err(BrewError::InvalidJson { .. })
    ));
}

#[test]
fn package_info_from_json() {
    let repository = BrewPackageRepository::new();
    let json = r#"{"formulae": [{"name": "wget", "versions": {"stable": "1.21.4"},
        "desc": "Internet file retriever"}], "casks": []}"#;
    let package =
        repository.parse_package_info("wget", json, PackageType::Formula).ok().expect("found");
    assert_eq!(package.name, "wget");
    assert_eq!(package.version.as_deref(), Some("1.21.4"));
    assert_eq!(package.description.as_deref(), Some("Internet file retriever"));
    assert!(!package.installed && !package.outdated && !package.version_load_failed);

    let cask = r#"{"casks": [{"token": "firefox", "version": "121.0"}]}"#;
    let package =
        repository.parse_package_info("firefox", cask, PackageType::Cask).ok().expect("found");
    assert_eq!(package.version.as_deref(), Some("121.0"));
    assert!(package.description.is_none());

    // A version that is no text hides the stable one.
    let odd = r#"{"formulae": [{"version": 3, "versions": {"stable": "1"}}]}"#;
    let package =
        repository.parse_package_info("odd", odd, PackageType::Formula).ok().expect("found");
    assert!(package.version.is_none());

    match repository.parse_package_info("wget", json, PackageType::Cask) {
        Err(error) => {
            assert!(matches!(error, BrewError::NotFound { .. }));
            assert_eq!(error.message(), "Package info not found for wget");
        }
        Ok(_) => panic!("no cask is listed"),
    }
}

#[test]
fn cleanup_lines_are_taken_for_headings() {
    let repository = BrewPackageRepository::new();
    let output = "==> This operation would free 10MB\nWould remove: /a/b (3 files, 1MB)\nRemoving: /c\n\nother\n";
    assert!(repository.parse_cleanup_output(output).is_empty());
    assert!(repository.parse_cleanup_output("").is_empty());
}

#[test]
fn service_status_words() {
    assert_eq!(BrewServiceRepository::parse_service_status("started"), ServiceStatus::Started);
    assert_eq!(BrewServiceRepository::parse_service_status("Started"), ServiceStatus::Started);
    assert_eq!(BrewServiceRepository::parse_service_status("STOPPED"), ServiceStatus::Stopped);
    assert_eq!(BrewServiceRepository::parse_service_status("none"), ServiceStatus::Stopped);
    assert_eq!(BrewServiceRepository::parse_service_status("Error"), ServiceStatus::Error);
    assert_eq!(BrewServiceRepository::parse_service_status("scheduled"), ServiceStatus::Unknown);
    assert_eq!(BrewServiceRepository::parse_service_status(""), ServiceStatus::Unknown);
    // `classify_status` takes the word as it is.
    assert_eq!(BrewServiceRepository::classify_status("Started"), ServiceStatus::Unknown);
    assert_eq!(BrewServiceRepository::classify_status("error: stopped"), ServiceStatus::Stopped);
}

#[test]
fn services_list_skips_the_heading() {
    let repository = BrewServiceRepository::new();
    let output = "Name       Status  User File\n\
                  postgresql started me   ~/Library/LaunchAgents/pg.plist\n\
                  redis      none\n\
                  \n\
                  nginx      error   root\n\
                  broken\n";
    let services = repository.parse_services_list(output);
    assert_eq!(services.len(), 3);
    assert_eq!(services[0].name, "postgresql");
    assert_eq!(services[0].status, ServiceStatus::Started);
    assert!(services[0].status.is_running());
    assert_eq!(services[0].user.as_deref(), Some("me"));
    assert_eq!(services[0].file.as_deref(), Some("~/Library/LaunchAgents/pg.plist"));
    assert_eq!(services[1].name, "redis");
    assert_eq!(services[1].status, ServiceStatus::Stopped);
    assert!(services[1].user.is_none() && services[1].file.is_none());
    assert_eq!(services[2].status, ServiceStatus::Error);
    assert_eq!(services[2].user.as_deref(), Some("root"));
    assert!(services[2].file.is_none());
    assert!(repository.parse_services_list("").is_empty());
    assert!(repository.parse_services_list("redis started\n").is_empty());
}

#[test]
fn export_is_read_by_sections() {
    let repository = BrewPackageListRepository::new();
    let output = "stray 1.0\nFORMULAE\nwget 1.21.4 1.20\n\n  jq\nCASKS\nfirefox 121.0\nFORMULAE\nnode 21\n";
    let list = repository.parse_package_list_dated(output, "2024-01-01T00:00:00+00:00".to_string());
    assert_eq!(list.export_date.as_deref(), Some("2024-01-01T00:00:00+00:00"));
    let formulae: Vec<(&str, Option<&str>)> =
        list.formulae.iter().map(|i| (i.name.as_str(), i.version.as_deref())).collect();
    assert_eq!(formulae, vec![("wget", Some("1.21.4")), ("jq", None), ("node", Some("21"))]);
    assert!(list.formulae.iter().all(|i| i.package_type == PackageType::Formula));
    assert_eq!(list.casks.len(), 1);
    assert_eq!(list.casks[0].name, "firefox");
    assert_eq!(list.casks[0].package_type, PackageType::Cask);
    assert_eq!(list.total_count(), 4);
}

#[test]
fn export_is_dated_now() {
    let repository = BrewPackageListRepository::new();
    let list = repository.parse_package_list("CASKS\nvlc 3.0\n");
    assert_eq!(list.casks.len(), 1);
    assert!(list.formulae.is_empty());
    let date = list.export_date.expect("the export is dated");
    // RFC 3339: a date, a `T`, a time, and an offset.
    assert!(date.len() >= 20);
    assert_eq!(&date[4..5], "-");
    assert_eq!(&date[10..11], "T");
    assert!(date.starts_with("20"));
}
