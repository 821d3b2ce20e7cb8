use adoptium_installer::config::{InstallConfig, InstallSettings, InstallTime, Settings};
use adoptium_installer::error::{InstallerError, RecordError};
use adoptium_installer::store::{collect_installs, record_path, records_dir, Installer};
use adoptium_installer::types::{
    AdoptiumJvmImpl, HeapSize, ImageType, Project, ReleaseType, Vendor,
};
use adoptium_installer::version::VersionData;

fn config(major: i64, image_type: ImageType) -> InstallConfig {
    InstallConfig {
        install_location: format!("/usr/lib/jvm/{}", major),
        install_time: InstallTime { secs: 0, nanos: 0, offset_secs: 0 },
        install_settings: InstallSettings {
            heap_size: HeapSize::Normal,
            image_type,
            jvm_impl: AdoptiumJvmImpl::HotSpot,
            vendor: Vendor::Eclipse,
            project: Project::JDK,
            c_lib: None,
            release_type: ReleaseType::GeneralAvailability,
            feature_version: major,
        },
        current_version: VersionData::new(major, 0, 1, 12),
    }
}

fn empty() -> Installer {
    Installer { settings: Settings::initial(), installs: Vec::new() }
}

#[test]
fn install_id_is_derived_from_major_and_settings() {
    let c = config(21, ImageType::JDK);
    assert_eq!(c.id(), "21-jdk-normal-hotspot");
    assert!(c.has_id("21-jdk-normal-hotspot"));
    assert!(!c.has_id("21-jre-normal-hotspot"));
    assert_eq!(config(8, ImageType::JRE).id(), "8-jre-normal-hotspot");
}

#[test]
fn record_paths() {
    let c = config(21, ImageType::JDK);
    assert_eq!(record_path("/etc/adoptium", &c), "/etc/adoptium/installs/21-jdk-normal-hotspot.toml");
    assert_eq!(records_dir("/etc/adoptium/"), "/etc/adoptium/installs");
}

#[test]
fn create_twice_fails_with_already_exists() {
    let mut app = empty();
    let first = app.add_install(String::from("/etc/adoptium/installs/21-jdk-normal-hotspot.toml"), config(21, ImageType::JDK));
    assert_eq!(first, Ok(()));
    assert_eq!(app.installs.len(), 1);
    let mut again = config(21, ImageType::JDK);
    again.install_location = String::from("/elsewhere");
    let second = app.add_install(String::from("/other.toml"), again);
    assert_eq!(second, Err(RecordError::AlreadyExists));
    assert_eq!(app.installs.len(), 1);
    assert_eq!(app.installs[0].config.install_location, "/usr/lib/jvm/21");
    assert_eq!(app.add_install(String::from("/x.toml"), config(21, ImageType::JRE)), Ok(()));
    assert_eq!(app.installs.len(), 2);
}

#[test]
fn corrupt_record_is_skipped_with_a_warning() {
    let entries = vec![
        (String::from("/etc/adoptium/installs/bad.toml"), Err(RecordError::Deserialize(String::from("expected `=`")))),
        (String::from("/etc/adoptium/installs/21-jdk-normal-hotspot.toml"), Ok(config(21, ImageType::JDK))),
    ];
    let listing = collect_installs(entries);
    assert_eq!(listing.installs.len(), 1);
    assert_eq!(listing.installs[0].install_file, "/etc/adoptium/installs/21-jdk-normal-hotspot.toml");
    assert_eq!(listing.installs[0].config.id(), "21-jdk-normal-hotspot");
    assert_eq!(listing.warnings, vec![String::from("/etc/adoptium/installs/bad.toml")]);
}

#[test]
fn listing_keeps_order_and_empty_listing_is_empty() {
    let entries = vec![
        (String::from("/a.toml"), Ok(config(17, ImageType::JDK))),
        (String::from("/b.toml"), Err(RecordError::Io(String::from("denied")))),
        (String::from("/c.toml"), Ok(config(21, ImageType::JRE))),
    ];
    let listing = collect_installs(entries);
    assert_eq!(listing.installs.len(), 2);
    assert_eq!(listing.installs[0].install_file, "/a.toml");
    assert_eq!(listing.installs[1].install_file, "/c.toml");
    assert_eq!(listing.warnings.len(), 1);
    let none = collect_installs(Vec::new());
    assert!(none.installs.is_empty() && none.warnings.is_empty());
}

#[test]
fn find_and_remove_installs() {
    let mut app = empty();
    app.add_install(String::from("/a.toml"), config(17, ImageType::JDK)).unwrap();
    app.add_install(String::from("/b.toml"), config(21, ImageType::JDK)).unwrap();
    assert_eq!(app.find_install("21-jdk-normal-hotspot"), Some(1));
    assert_eq!(app.find_install("11-jdk-normal-hotspot"), None);
    assert!(app.does_install_exist(&config(17, ImageType::JDK)));
    let removed = app.remove_install("17-jdk-normal-hotspot").unwrap();
    assert_eq!(removed.install_file, "/a.toml");
    assert_eq!(app.installs.len(), 1);
    assert_eq!(app.installs[0].install_file, "/b.toml");
}

#[test]
fn removing_an_unknown_id_changes_nothing() {
    let mut app = empty();
    app.add_install(String::from("/a.toml"), config(17, ImageType::JDK)).unwrap();
    let r = app.remove_install("99-jdk-normal-hotspot");
    assert!(matches!(r, Err(InstallerError::NotFound(_))));
    assert_eq!(app.installs.len(), 1);
    assert_eq!(app.installs[0].install_file, "/a.toml");
}

#[test]
fn human_date_time_formats_the_recorded_instant() {
    let mut c = config(21, ImageType::JDK);
    assert_eq!(c.human_date_time(), Some(String::from("1970-01-01 00:00")));
    c.install_time = InstallTime { secs: 1_700_000_000, nanos: 0, offset_secs: 3600 };
    assert_eq!(c.human_date_time(), Some(String::from("2023-11-14 23:13")));
    c.install_time.offset_secs = 90_000;
    assert_eq!(c.human_date_time(), None);
}
