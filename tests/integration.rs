use adoptium_installer::config::{InstallMethod, SysConfig, UpdateAlternativePath, UpdateAlternatives};
use adoptium_installer::integration::{remove_install, update_system, IntegrationReport, SystemCommand};
use adoptium_installer::types::ImageType;

fn words(c: &SystemCommand) -> Vec<String> {
    let mut v = vec![c.program.clone()];
    v.extend(c.args.iter().cloned());
    v
}

#[test]
fn runtime_image_touches_only_the_runtime_pairs() {
    let sys = SysConfig::default();
    let plan = update_system(&sys, ImageType::JRE, "/usr/lib/jvm/21-jre-normal-hotspot");
    assert_eq!(plan.len(), 2);
    assert_eq!(words(&plan[0]), vec!["chmod", "-Rv", "755", "/usr/lib/jvm/21-jre-normal-hotspot"]);
    assert_eq!(
        words(&plan[1]),
        vec!["update-alternatives", "--install", "/usr/bin/java", "java", "/usr/lib/jvm/21-jre-normal-hotspot/bin/java", "1"]
    );
    let undo = remove_install(&sys, ImageType::JRE, "/usr/lib/jvm/21-jre-normal-hotspot");
    assert_eq!(undo.len(), 1);
    assert_eq!(
        words(&undo[0]),
        vec!["update-alternatives", "--remove", "java", "/usr/lib/jvm/21-jre-normal-hotspot/bin/java"]
    );
}

#[test]
fn development_kit_registers_the_full_toolchain() {
    let sys = SysConfig::default();
    let plan = update_system(&sys, ImageType::JDK, "/opt/jdk");
    assert_eq!(plan.len(), 7);
    let execs: Vec<String> = plan[1..].iter().map(|c| c.args[2].clone()).collect();
    assert_eq!(execs, vec!["java", "javac", "javadoc", "javah", "javap", "javaws"]);
    assert_eq!(plan[2].args[1], "/usr/bin/javac");
    assert_eq!(plan[2].args[3], "/opt/jdk/bin/javac");
    assert_eq!(remove_install(&sys, ImageType::JDK, "/opt/jdk").len(), 6);
}

#[test]
fn other_image_types_are_no_ops() {
    let sys = SysConfig::default();
    for t in [ImageType::TestImage, ImageType::DebugImage, ImageType::StaticLibs, ImageType::Sources] {
        assert!(update_system(&sys, t, "/opt/x").is_empty());
        assert!(remove_install(&sys, t, "/opt/x").is_empty());
    }
}

#[test]
fn custom_pairs_are_used_as_configured() {
    let sys = SysConfig {
        install_method: InstallMethod::UpdateAlternatives(UpdateAlternatives {
            jre_paths: vec![UpdateAlternativePath::new("/bin/j", "jx")],
            jdk_paths: Vec::new(),
        }),
    };
    let plan = update_system(&sys, ImageType::JRE, "/r/");
    assert_eq!(words(&plan[1]), vec!["update-alternatives", "--install", "/bin/j", "jx", "/r/bin/jx", "1"]);
    assert_eq!(update_system(&sys, ImageType::JDK, "/r").len(), 1);
}

#[test]
fn failed_commands_are_reported_not_fatal() {
    let r = IntegrationReport::from_exit_codes(&vec![0, 3, 0, 1]);
    assert_eq!(r.failed, vec![1, 3]);
    assert!(!r.all_succeeded());
    assert!(IntegrationReport::from_exit_codes(&vec![0, 0]).all_succeeded());
    assert!(IntegrationReport::from_exit_codes(&Vec::new()).all_succeeded());
}
