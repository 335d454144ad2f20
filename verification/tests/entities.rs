use brewsty::application::{CacheInfoDto, PackageDto};
use brewsty::domain::entities::{
    AppConfig, CacheInfo, Package, PackageList, PackageListItem, PackageType, Service,
    ServiceStatus, ThemeMode,
};
use brewsty::domain::services::PackageValidator;

#[test]
fn new_package_knows_only_name_and_family() {
    let package = Package::new("wget".to_string(), PackageType::Formula);
    assert_eq!(package.name, "wget");
    assert_eq!(package.package_type, PackageType::Formula);
    assert!(package.version.is_none());
    assert!(package.available_version.is_none());
    assert!(package.description.is_none());
    assert!(!package.installed && !package.outdated && !package.pinned);
    assert!(!package.version_load_failed);
}

#[test]
fn package_builders_set_one_field_each() {
    let package = Package::new("wget".to_string(), PackageType::Cask)
        .with_version("1".to_string())
        .with_available_version("2".to_string())
        .with_description("gets".to_string())
        .set_installed(true)
        .set_outdated(true)
        .set_pinned(true)
        .set_version_load_failed(true);
    assert_eq!(package.name, "wget");
    assert_eq!(package.package_type, PackageType::Cask);
    assert_eq!(package.version.as_deref(), Some("1"));
    assert_eq!(package.available_version.as_deref(), Some("2"));
    assert_eq!(package.description.as_deref(), Some("gets"));
    assert!(package.installed && package.outdated && package.pinned);
    assert!(package.version_load_failed);
    let copy = package.clone().set_installed(false).set_pinned(false);
    assert!(!copy.installed && !copy.pinned && copy.outdated);
    assert_eq!(copy.version, package.version);
    assert!(package.installed);
}

#[test]
fn family_labels() {
    assert_eq!(PackageType::Formula.label(), "Formula");
    assert_eq!(PackageType::Cask.label(), "Cask");
}

#[test]
fn package_list_counts_both_families() {
    let mut list = PackageList::new();
    assert_eq!(list.total_count(), 0);
    assert!(list.export_date.is_none());
    list.add_formula(PackageListItem::new("wget".to_string(), PackageType::Formula));
    list.add_formula(
        PackageListItem::new("jq".to_string(), PackageType::Formula).with_version("1.7".to_string()),
    );
    list.add_cask(PackageListItem::new("vlc".to_string(), PackageType::Cask));
    assert_eq!(list.total_count(), 3);
    assert_eq!(list.formulae.len(), 2);
    assert_eq!(list.formulae[1].version.as_deref(), Some("1.7"));
    assert!(list.formulae[0].version.is_none());
    assert_eq!(list.casks[0].name, "vlc");
    let list = list.with_export_date("today".to_string());
    assert_eq!(list.export_date.as_deref(), Some("today"));
    assert_eq!(list.total_count(), 3);
    assert_eq!(PackageList::default().total_count(), 0);
    let item = PackageListItem::new("a".to_string(), PackageType::Cask).clone();
    assert_eq!(item.name, "a");
}

#[test]
fn services() {
    assert!(ServiceStatus::Started.is_running());
    assert!(!ServiceStatus::Stopped.is_running());
    assert!(!ServiceStatus::Error.is_running());
    assert!(!ServiceStatus::Unknown.is_running());
    let service = Service::new("redis".to_string(), ServiceStatus::Started);
    assert!(service.user.is_none() && service.file.is_none());
    let service = service.with_user("me".to_string()).with_file("redis.plist".to_string());
    assert_eq!(service.name, "redis");
    assert_eq!(service.user.as_deref(), Some("me"));
    assert_eq!(service.file.as_deref(), Some("redis.plist"));
    let copy = service.clone();
    assert_eq!(copy.status, ServiceStatus::Started);
    assert_eq!(copy.file, service.file);
}

#[test]
fn default_config() {
    let config = AppConfig::default();
    assert_eq!(config.theme, ThemeMode::System);
    assert!(config.auto_update_check);
    assert!(config.confirm_before_actions);
    let info = CacheInfo { total_size: 1, package_count: 2 };
    assert_eq!(info.clone().package_count, 2);
}

#[test]
fn dto_writes_the_family_out() {
    let package = Package::new("wget".to_string(), PackageType::Formula)
        .with_version("1".to_string())
        .with_description("d".to_string())
        .set_installed(true);
    let dto = PackageDto::from(package);
    assert_eq!(dto.name, "wget");
    assert_eq!(dto.version.as_deref(), Some("1"));
    assert_eq!(dto.description.as_deref(), Some("d"));
    assert_eq!(dto.package_type, "Formula");
    assert!(dto.installed);
    assert!(!dto.outdated);
    let dto = PackageDto::from_package(Package::new("vlc".to_string(), PackageType::Cask));
    assert_eq!(dto.package_type, "Cask");
    let cache = CacheInfoDto { total_size: 5, package_count: 1 };
    assert_eq!(cache.total_size, 5);
}

#[test]
fn package_names() {
    assert!(PackageValidator::validate_package_name("wget"));
    assert!(PackageValidator::validate_package_name("lib-x_2"));
    assert!(PackageValidator::validate_package_name("héllo"));
    assert!(PackageValidator::validate_package_name("٣"));
    assert!(!PackageValidator::validate_package_name(""));
    assert!(!PackageValidator::validate_package_name("a b"));
    assert!(!PackageValidator::validate_package_name("python@3.11"));
    assert!(!PackageValidator::validate_package_name("a/b"));
    assert!(!PackageValidator::validate_package_name("-;"));
    let good = Package::new("wget".to_string(), PackageType::Formula);
    assert!(PackageValidator::validate_package(&good).is_ok());
    let bad = Package::new("rm -rf".to_string(), PackageType::Formula);
    assert_eq!(
        PackageValidator::validate_package(&bad),
        Err("Invalid package name: rm -rf".to_string())
    );
    let empty = Package::new(String::new(), PackageType::Cask);
    assert_eq!(
        PackageValidator::validate_package(&empty),
        Err("Invalid package name: ".to_string())
    );
}
