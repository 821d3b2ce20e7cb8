use adoptium_installer::lifecycle::{latest_version_request, InstallCommand};
use adoptium_installer::config::InstallSettings;
use adoptium_installer::request::{
    build_url, release_path, ReleaseInformationParams, ReleaseInformationParamsBuilder,
    ReleaseInformationQueryParams, ReleaseInformationQueryParamsBuilder,
};
use adoptium_installer::types::{
    AdoptiumJvmImpl, Architecture, HeapSize, ImageType, Project, ReleaseType, Sort, SortBuilder,
    SortMethod, SortOrder, SystemProperties, Vendor, WithSort, OS,
};

fn host() -> SystemProperties {
    SystemProperties { os: OS::Linux, architecture: Architecture::X64 }
}

#[test]
fn install_command_asks_for_the_single_newest_release() {
    let cmd = InstallCommand { image_type: Some(ImageType::JRE), jvm_impl: None, release_type: None, version: 17 };
    let p = cmd.request(host());
    assert_eq!(p.feature_version, 17);
    assert_eq!(p.release_type, ReleaseType::GeneralAvailability);
    assert_eq!(p.query_params.image_type, Some(ImageType::JRE));
    assert_eq!(p.query_params.jvm_impl, None);
    assert_eq!(p.query_params.local_system, Some(host()));
    assert_eq!(
        p.query_params.sort,
        Some(Sort { sort_order: SortOrder::Descending, sort_method: SortMethod::Default, page: 0, page_size: 1 })
    );
    assert_eq!(p.query_params.heap_size, None);
    let ea = InstallCommand { image_type: None, jvm_impl: Some(AdoptiumJvmImpl::HotSpot), release_type: Some(ReleaseType::EarlyAccess), version: 22 };
    assert_eq!(ea.request(host()).release_type, ReleaseType::EarlyAccess);
}

#[test]
fn latest_version_request_uses_stored_settings() {
    let s = InstallSettings {
        heap_size: HeapSize::Normal,
        image_type: ImageType::JDK,
        jvm_impl: AdoptiumJvmImpl::HotSpot,
        vendor: Vendor::Eclipse,
        project: Project::JDK,
        c_lib: None,
        release_type: ReleaseType::EarlyAccess,
        feature_version: 23,
    };
    let p = latest_version_request(&s, host());
    assert_eq!(p.feature_version, 23);
    assert_eq!(p.release_type, ReleaseType::EarlyAccess);
    assert_eq!(p.query_params.image_type, Some(ImageType::JDK));
    assert_eq!(p.query_params.jvm_impl, Some(AdoptiumJvmImpl::HotSpot));
    assert_eq!(p.query_params.sort.unwrap().page_size, 1);
}

#[test]
fn params_defaults_and_from() {
    let d = ReleaseInformationParams::default();
    assert_eq!(d.feature_version, 21);
    assert_eq!(d.release_type, ReleaseType::GeneralAvailability);
    assert_eq!(d.query_params, ReleaseInformationQueryParams::default());
    let f = ReleaseInformationParams::from(11);
    assert_eq!(f.feature_version, 11);
    assert_eq!(f.release_type, ReleaseType::GeneralAvailability);
    assert_eq!(ReleaseInformationParamsBuilder::default().build(), d);
}

#[test]
fn builders_set_what_they_are_given() {
    let q = ReleaseInformationQueryParamsBuilder::default()
        .heap_size(Some(HeapSize::Large))
        .vendor(Some(Vendor::Eclipse))
        .with_sort(SortBuilder::default().page(2));
    let built = q.build();
    assert_eq!(built.heap_size, Some(HeapSize::Large));
    assert_eq!(built.vendor, Some(Vendor::Eclipse));
    assert_eq!(built.sort.unwrap().page, 2);
    assert_eq!(built.sort.unwrap().page_size, 10);
    let p = ReleaseInformationParamsBuilder::default().feature_version(8).with_query_builder(q).build();
    assert_eq!(p.feature_version, 8);
    assert_eq!(p.query_params, built);
}

#[test]
fn release_path_and_url() {
    let p = ReleaseInformationParams::from(21);
    let path = release_path(&p, "image_type=jdk&page_size=1");
    assert_eq!(path, "assets/feature_releases/21/ga?image_type=jdk&page_size=1");
    assert_eq!(build_url(&path), "https://api.adoptium.net/v3/assets/feature_releases/21/ga?image_type=jdk&page_size=1");
}
