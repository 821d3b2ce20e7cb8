use adoptium_installer::text::{join, str_eq};
use adoptium_installer::types::{
    AdoptiumJvmImpl, Architecture, CLib, HeapSize, ImageType, Project, ReleaseType, Sort,
    SortBuilder, SortMethod, SortOrder, SystemProperties, Vendor, OS,
};

#[test]
fn wire_names() {
    assert_eq!(ImageType::JRE.as_str(), "jre");
    assert_eq!(ImageType::TestImage.as_str(), "testimage");
    assert_eq!(HeapSize::Large.as_str(), "large");
    assert_eq!(AdoptiumJvmImpl::HotSpot.as_str(), "hotspot");
    assert_eq!(ReleaseType::GeneralAvailability.as_str(), "ga");
    assert_eq!(ReleaseType::EarlyAccess.as_str(), "ea");
    assert_eq!(OS::AlpineLinux.as_str(), "alpine-linux");
    assert_eq!(SortOrder::Descending.as_str(), "DESC");
    assert_eq!(SortMethod::Date.as_str(), "DATE");
    assert_eq!(Vendor::Eclipse.as_str(), "eclipse");
    assert_eq!(CLib::MUSL.as_str(), "musl");
    assert_eq!(Project::Shenandoah.as_str(), "shenandoah");
    assert_eq!(Architecture::AArch64.as_str(), "aarch64");
}

#[test]
fn names_read_back() {
    assert_eq!(ImageType::from_name("jdk"), Some(ImageType::JDK));
    assert_eq!(ImageType::from_name("JDK"), None);
    assert_eq!(Architecture::from_name("x86_64"), Some(Architecture::X64));
    assert_eq!(Architecture::from_name("x64"), Some(Architecture::X64));
    assert_eq!(Architecture::from_name("mips"), None);
    assert_eq!(OS::from_name("linux"), Some(OS::Linux));
    assert_eq!(ReleaseType::from_name("ga"), Some(ReleaseType::GeneralAvailability));
    assert_eq!(SortOrder::from_name("ASC"), Some(SortOrder::Ascending));
    assert_eq!(HeapSize::from_name(""), None);
}

#[test]
fn enum_defaults() {
    assert_eq!(ImageType::default(), ImageType::JDK);
    assert_eq!(HeapSize::default(), HeapSize::Normal);
    assert_eq!(AdoptiumJvmImpl::default(), AdoptiumJvmImpl::HotSpot);
    assert_eq!(Project::default(), Project::JDK);
    assert_eq!(ReleaseType::default(), ReleaseType::GeneralAvailability);
}

#[test]
fn host_system() {
    let p = SystemProperties::for_host("linux", "x86_64").unwrap();
    assert_eq!(p.os, OS::Linux);
    assert_eq!(p.architecture, Architecture::X64);
    assert!(SystemProperties::for_host("plan9", "x86_64").is_none());
    assert!(SystemProperties::for_host("linux", "vax").is_none());
}

#[test]
fn sort_builder_fills_defaults() {
    let s = SortBuilder::default().page_size(1).build();
    assert_eq!(
        s,
        Sort { sort_order: SortOrder::Descending, sort_method: SortMethod::Default, page: 0, page_size: 1 }
    );
    assert_eq!(SortBuilder::default().build(), Sort::default());
    assert_eq!(Sort::default().page_size, 10);
    let t = SortBuilder::default().sort_order(SortOrder::Ascending).sort_method(SortMethod::Date).page(3).build();
    assert_eq!(t.sort_order, SortOrder::Ascending);
    assert_eq!(t.sort_method, SortMethod::Date);
    assert_eq!(t.page, 3);
    assert_eq!(t.page_size, 10);
}

#[test]
fn text_helpers() {
    assert_eq!(join("/usr/lib/jvm", "21-jdk-normal-hotspot"), "/usr/lib/jvm/21-jdk-normal-hotspot");
    assert_eq!(join("/tmp/", "x"), "/tmp/x");
    assert_eq!(join("", "x"), "x");
    assert!(str_eq("abc", "abc"));
    assert!(!str_eq("abc", "abd"));
    assert!(!str_eq("abc", "ab"));
}
