use adoptium_installer::config::{InstallConfig, InstallTime, Settings};
use adoptium_installer::error::{AdoptiumError, InstallerError};
use adoptium_installer::lifecycle::{
    newest_release, prepare_update, table_row, up_to_date, InstallDecision, InstallStage, Step, UpToDate,
    UpdateDecision,
};
use adoptium_installer::plan::{find_internal_data, move_data, DirEntryInfo, PlanStep};
use adoptium_installer::response::{Binary, Package, ReleaseInformationDatum};
use adoptium_installer::store::{record_path, Installer};
use adoptium_installer::types::{
    AdoptiumJvmImpl, Architecture, HeapSize, ImageType, OS, Project, ReleaseType, Vendor,
};
use adoptium_installer::version::VersionData;

fn package(link: &str) -> Package {
    Package {
        checksum: String::from("abc"),
        checksum_link: None,
        download_count: 0,
        link: String::from(link),
        metadata_link: String::new(),
        name: String::from("jdk.tar.gz"),
        size: 1234,
    }
}

fn release(version: VersionData, image_type: ImageType, link: &str) -> ReleaseInformationDatum {
    ReleaseInformationDatum {
        binaries: vec![Binary {
            architecture: Architecture::X64,
            download_count: 0,
            heap_size: HeapSize::Normal,
            image_type,
            jvm_impl: AdoptiumJvmImpl::HotSpot,
            os: OS::Linux,
            package: package(link),
            project: Project::JDK,
            scm_ref: String::new(),
            updated_at: String::new(),
            installer: None,
        }],
        download_count: 0,
        id: String::from("r1"),
        release_link: String::new(),
        release_name: String::from("jdk-21.0.1+12"),
        release_type: ReleaseType::GeneralAvailability,
        source: None,
        timestamp: String::new(),
        updated_at: String::new(),
        vendor: Vendor::Eclipse,
        version_data: version,
    }
}

const LINK: &str = "https://example.com/jdk.tar.gz";

fn at(secs: i64) -> InstallTime {
    InstallTime { secs, nanos: 0, offset_secs: 0 }
}

fn app() -> Installer {
    Installer { settings: Settings::initial(), installs: Vec::new() }
}

fn install_job(app: &Installer, version: VersionData) -> InstallConfig {
    match app.prepare_install(21, vec![release(version, ImageType::JDK, LINK)], at(100), "/tmp").unwrap() {
        InstallDecision::Proceed(job) => job.config,
        InstallDecision::AlreadyInstalled => panic!("expected a new install"),
    }
}

#[test]
fn install_then_update_end_to_end() {
    let mut app = app();
    let config = install_job(&app, VersionData::new(21, 0, 1, 12));
    assert_eq!(config.current_version.major, 21);
    assert_eq!(config.install_location, "/usr/lib/jvm/21-jdk-normal-hotspot");
    assert_eq!(config.install_settings.feature_version, 21);
    assert_eq!(config.install_settings.image_type, ImageType::JDK);
    assert_eq!(config.install_settings.c_lib, None);
    assert_eq!(config.install_time, at(100));
    let file = record_path("/etc/adoptium", &config);
    app.add_install(file.clone(), config).unwrap();

    let same = prepare_update(&app.installs[0], release(VersionData::new(21, 0, 1, 12), ImageType::JDK, LINK), at(200), "/tmp").unwrap();
    assert!(matches!(same, UpdateDecision::Current));
    assert_eq!(app.installs[0].config.install_time, at(100));

    let older = prepare_update(&app.installs[0], release(VersionData::new(21, 0, 0, 35), ImageType::JDK, LINK), at(200), "/tmp").unwrap();
    assert!(matches!(older, UpdateDecision::Current));

    let newer = prepare_update(&app.installs[0], release(VersionData::new(21, 0, 2, 13), ImageType::JDK, LINK), at(300), "/tmp").unwrap();
    let job = match newer {
        UpdateDecision::Update(job) => job,
        UpdateDecision::Current => panic!("expected an update"),
    };
    assert_eq!(job.download.size, 1234);
    assert_eq!(job.download.target, "/tmp/21-jdk-normal-hotspot");
    assert_eq!(job.download.url.as_str(), LINK);
    app.apply_update(0, job.config);
    assert_eq!(app.installs[0].config.current_version.semver, "21.0.2+13");
    assert_eq!(app.installs[0].config.install_time, at(300));
    assert_eq!(app.installs[0].config.install_location, "/usr/lib/jvm/21-jdk-normal-hotspot");
    assert_eq!(app.installs[0].install_file, file);
}

#[test]
fn installing_an_existing_id_is_a_no_op() {
    let mut app = app();
    let config = install_job(&app, VersionData::new(21, 0, 1, 12));
    app.add_install(String::from("/r.toml"), config).unwrap();
    let again = app.prepare_install(21, vec![release(VersionData::new(21, 0, 3, 1), ImageType::JDK, LINK)], at(5), "/tmp").unwrap();
    assert!(matches!(again, InstallDecision::AlreadyInstalled));
    assert_eq!(app.installs.len(), 1);
}

#[test]
fn resolution_failures() {
    let app = app();
    assert!(matches!(app.prepare_install(21, Vec::new(), at(0), "/tmp"), Err(InstallerError::Adoptium(AdoptiumError::NoRelease))));
    let mut r = release(VersionData::new(21, 0, 1, 12), ImageType::JDK, LINK);
    r.binaries.clear();
    assert!(matches!(app.prepare_install(21, vec![r], at(0), "/tmp"), Err(InstallerError::Adoptium(AdoptiumError::NoBinary))));
    let bad = release(VersionData::new(21, 0, 1, 12), ImageType::JDK, "not a url");
    assert!(matches!(app.prepare_install(21, vec![bad], at(0), "/tmp"), Err(InstallerError::Adoptium(AdoptiumError::InvalidUrl))));
}

#[test]
fn update_targets() {
    let mut app = app();
    app.add_install(String::from("/a.toml"), install_job(&app, VersionData::new(21, 0, 1, 12))).unwrap();
    let mut second = install_job(&app, VersionData::new(17, 0, 9, 9));
    second.install_settings.image_type = ImageType::JRE;
    app.add_install(String::from("/b.toml"), second).unwrap();
    assert_eq!(app.update_targets("all").unwrap(), vec![0, 1]);
    assert_eq!(app.update_targets("17-jre-normal-hotspot").unwrap(), vec![1]);
    assert!(matches!(app.update_targets("8-jdk-normal-hotspot"), Err(InstallerError::NotFound(_))));
}

#[test]
fn uninstall_plan_order_and_not_found() {
    let mut app = app();
    let config = install_job(&app, VersionData::new(21, 0, 1, 12));
    app.add_install(String::from("/etc/adoptium/installs/21-jdk-normal-hotspot.toml"), config).unwrap();
    let missing = app.plan_uninstall("11-jdk-normal-hotspot");
    assert!(matches!(missing, Err(InstallerError::NotFound(_))));
    assert_eq!(app.installs.len(), 1);
    let (i, steps) = app.plan_uninstall("21-jdk-normal-hotspot").unwrap();
    assert_eq!(i, 0);
    assert_eq!(steps.len(), 8);
    assert!(steps[..6].iter().all(|s| matches!(s, PlanStep::Run(c) if c.args[0] == "--remove")));
    assert!(matches!(&steps[6], PlanStep::RemoveTree(p) if p == "/usr/lib/jvm/21-jdk-normal-hotspot"));
    assert!(matches!(&steps[7], PlanStep::RemoveFile(p) if p == "/etc/adoptium/installs/21-jdk-normal-hotspot.toml"));
}

#[test]
fn stages_reach_the_record_only_after_every_step() {
    let mut s = InstallStage::start();
    for _ in 0..5 {
        s = s.advance(true);
        assert!(!s.is_finished());
    }
    assert_eq!(s, InstallStage::At(Step::Record));
    s = s.advance(true);
    assert_eq!(s, InstallStage::Recorded);
    let f = InstallStage::start().advance(true).advance(false);
    assert_eq!(f, InstallStage::Failed(Step::Download));
    assert_eq!(f.advance(true), InstallStage::Failed(Step::Download));
}

#[test]
fn listing_classification() {
    let current = VersionData::new(21, 0, 1, 12);
    let newer = VersionData::new(21, 0, 2, 13);
    match up_to_date(&current, &newer) {
        UpToDate::No(v) => assert_eq!(v, "21.0.2+13"),
        UpToDate::Yes => panic!("expected stale"),
    }
    assert!(matches!(up_to_date(&newer, &current), UpToDate::Yes));
    assert!(matches!(up_to_date(&current, &current), UpToDate::Yes));
    assert_eq!(UpToDate::Yes.describe(), "Yes");
    assert_eq!(UpToDate::No(String::from("21.0.2+13")).describe(), "No(Latest: 21.0.2+13)");
    let mut app = app();
    app.add_install(String::from("/a.toml"), install_job(&app, current)).unwrap();
    let row = table_row(&app.installs[0], &newer);
    assert_eq!(row.version, "21.0.1+12");
    assert_eq!(row.id, "21-jdk-normal-hotspot");
    assert_eq!(row.location, "/usr/lib/jvm/21-jdk-normal-hotspot");
    assert_eq!(row.installed_on, "1970-01-01 00:01");
    assert_eq!(row.up_to_date.describe(), "No(Latest: 21.0.2+13)");
}

#[test]
fn payload_root_and_relocation() {
    let entries = vec![
        DirEntryInfo { path: String::from("/tmp/x/README"), is_dir: false, has_bin: false },
        DirEntryInfo { path: String::from("/tmp/x/docs"), is_dir: true, has_bin: false },
        DirEntryInfo { path: String::from("/tmp/x/jdk-21.0.1+12"), is_dir: true, has_bin: true },
        DirEntryInfo { path: String::from("/tmp/x/other"), is_dir: true, has_bin: true },
    ];
    assert_eq!(find_internal_data("/tmp/x", &entries), "/tmp/x/jdk-21.0.1+12");
    assert_eq!(find_internal_data("/tmp/x", &Vec::new()), "/tmp/x");
    let steps = move_data("/tmp/x/jdk", &vec![String::from("bin"), String::from("lib")], "/usr/lib/jvm/21");
    assert_eq!(steps.len(), 4);
    assert!(matches!(&steps[0], PlanStep::RemoveTree(p) if p == "/usr/lib/jvm/21"));
    assert!(matches!(&steps[1], PlanStep::CreateDir(p) if p == "/usr/lib/jvm/21"));
    assert!(matches!(&steps[2], PlanStep::Move(a, b) if a == "/tmp/x/jdk/bin" && b == "/usr/lib/jvm/21/bin"));
    assert!(matches!(&steps[3], PlanStep::Move(a, b) if a == "/tmp/x/jdk/lib" && b == "/usr/lib/jvm/21/lib"));
}

#[test]
fn newest_release_is_the_first_listed() {
    let first = release(VersionData::new(21, 0, 2, 13), ImageType::JDK, LINK);
    let second = release(VersionData::new(21, 0, 1, 12), ImageType::JDK, LINK);
    let r = newest_release(vec![first, second]).unwrap();
    assert_eq!(r.version_data.semver, "21.0.2+13");
    assert!(matches!(newest_release(Vec::new()), Err(InstallerError::Adoptium(AdoptiumError::NoRelease))));
}
