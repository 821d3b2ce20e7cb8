//! What an install is: its settings, its record, and the tool's own settings.
use crate::text::{decimal, decimal_string, join, join_spec};
use crate::types::{AdoptiumJvmImpl, CLib, HeapSize, ImageType, Project, ReleaseType, Vendor};
use crate::version::VersionData;
use vstd::prelude::*;

verus! {

/// What kind of distribution was asked for and installed.
#[derive(Clone, Copy, Debug, PartialEq, Eq, Structural)]
pub struct InstallSettings {
    pub heap_size: HeapSize,
    pub image_type: ImageType,
    pub jvm_impl: AdoptiumJvmImpl,
    pub vendor: Vendor,
    pub project: Project,
    pub c_lib: Option<CLib>,
    pub release_type: ReleaseType,
    pub feature_version: i64,
}

/// An instant: seconds and nanoseconds since the Unix epoch, with the offset
/// from UTC, in seconds, of the zone it was read in.
#[derive(Clone, Copy, Debug, PartialEq, Eq, Structural)]
pub struct InstallTime {
    pub secs: i64,
    pub nanos: u32,
    pub offset_secs: i32,
}

/// The text "%Y-%m-%d %H:%M" of an instant, in the zone of the given offset.
pub uninterp spec fn minute_stamp(secs: i64, offset_secs: i32) -> Seq<char>;

/// Relies on chrono's `DateTime::from_timestamp`, `FixedOffset::east_opt` and
/// `DateTime::format`: the text depends on the instant and the offset alone;
/// `east_opt` accepts exactly the offsets strictly within one day.
#[verifier::external_body]
fn format_minutes(secs: i64, offset_secs: i32) -> (r: Option<String>)
    ensures
        r matches Some(s) ==> s@ == minute_stamp(secs, offset_secs),
        r is Some ==> -86400 < offset_secs < 86400,
{
    let zone = chrono::FixedOffset::east_opt(offset_secs)?;
    let utc = chrono::DateTime::from_timestamp(secs, 0)?;
    Some(utc.with_timezone(&zone).format("%Y-%m-%d %H:%M").to_string())
}

/// One installed instance.
pub struct InstallConfig {
    pub install_location: String,
    pub install_time: InstallTime,
    pub install_settings: InstallSettings,
    pub current_version: VersionData,
}

/// The id of an install: "{major}-{image_type}-{heap_size}-{jvm_impl}".
pub open spec fn install_id(major: i64, s: InstallSettings) -> Seq<char> {
    decimal(major as int) + seq!['-'] + s.image_type.name_spec() + seq!['-']
        + s.heap_size.name_spec() + seq!['-'] + s.jvm_impl.name_spec()
}

impl InstallConfig {
    /// The id of this install.
    pub open spec fn id_spec(&self) -> Seq<char> {
        install_id(self.current_version.major, self.install_settings)
    }

    /// The id of this install: "{major}-{image_type}-{heap_size}-{jvm_impl}".
    /// Two records stand for the same install exactly when their ids are equal.
    pub fn id(&self) -> (r: String)
        ensures
            r@ == self.id_spec(),
    {
        let mut s = decimal_string(self.current_version.major);
        s.append("-");
        s.append(self.install_settings.image_type.as_str());
        s.append("-");
        s.append(self.install_settings.heap_size.as_str());
        s.append("-");
        s.append(self.install_settings.jvm_impl.as_str());
        proof {
            reveal_strlit("-");
        }
        assert(s@ =~= self.id_spec());
        s
    }

    /// Whether this install has the given id.
    pub fn has_id(&self, id: &str) -> (r: bool)
        ensures
            r == (self.id_spec() == id@),
    {
        let own = self.id();
        crate::text::str_eq(own.as_str(), id)
    }

    /// The install time as "%Y-%m-%d %H:%M" in the zone it was recorded in;
    /// `None` when the time cannot be shown.
    pub fn human_date_time(&self) -> (r: Option<String>)
        ensures
            r matches Some(s) ==> s@ == minute_stamp(
                self.install_time.secs,
                self.install_time.offset_secs,
            ),
    {
        format_minutes(self.install_time.secs, self.install_time.offset_secs)
    }

    /// A copy of this record.
    pub fn duplicate(&self) -> (r: InstallConfig)
        ensures
            r.install_location@ == self.install_location@,
            r.install_time == self.install_time,
            r.install_settings == self.install_settings,
            r.current_version.key() == self.current_version.key(),
            r.current_version.semver@ == self.current_version.semver@,
            r.id_spec() == self.id_spec(),
    {
        InstallConfig {
            install_location: self.install_location.clone(),
            install_time: self.install_time,
            install_settings: self.install_settings,
            current_version: self.current_version.clone(),
        }
    }
}

/// A system path and the executable that provides it.
pub struct UpdateAlternativePath {
    pub system_path: String,
    pub exec_name: String,
}

impl View for UpdateAlternativePath {
    type V = (Seq<char>, Seq<char>);

    open spec fn view(&self) -> (Seq<char>, Seq<char>) {
        (self.system_path@, self.exec_name@)
    }
}

impl UpdateAlternativePath {
    pub fn new(system_path: &str, exec_name: &str) -> (r: UpdateAlternativePath)
        ensures
            r@ == (system_path@, exec_name@),
    {
        UpdateAlternativePath {
            system_path: String::from_str(system_path),
            exec_name: String::from_str(exec_name),
        }
    }
}

/// The (system path, executable) pairs of a list.
pub open spec fn pairs_of(v: Seq<UpdateAlternativePath>) -> Seq<(Seq<char>, Seq<char>)> {
    v.map_values(|p: UpdateAlternativePath| p@)
}

/// The executables registered through the alternatives system, per image type.
pub struct UpdateAlternatives {
    pub jre_paths: Vec<UpdateAlternativePath>,
    pub jdk_paths: Vec<UpdateAlternativePath>,
}

/// The pairs registered for a runtime image by default.
pub open spec fn default_jre_pairs() -> Seq<(Seq<char>, Seq<char>)> {
    seq![("/usr/bin/java"@, "java"@)]
}

/// The pairs registered for a development kit image by default.
pub open spec fn default_jdk_pairs() -> Seq<(Seq<char>, Seq<char>)> {
    seq![
        ("/usr/bin/java"@, "java"@),
        ("/usr/bin/javac"@, "javac"@),
        ("/usr/bin/javadoc"@, "javadoc"@),
        ("/usr/bin/javah"@, "javah"@),
        ("/usr/bin/javap"@, "javap"@),
        ("/usr/bin/javaws"@, "javaws"@),
    ]
}

impl Default for UpdateAlternatives {
    fn default() -> (r: UpdateAlternatives)
        ensures
            pairs_of(r.jre_paths@) == default_jre_pairs(),
            pairs_of(r.jdk_paths@) == default_jdk_pairs(),
    {
        let mut jre_paths = Vec::new();
        jre_paths.push(UpdateAlternativePath::new("/usr/bin/java", "java"));
        let mut jdk_paths = Vec::new();
        jdk_paths.push(UpdateAlternativePath::new("/usr/bin/java", "java"));
        jdk_paths.push(UpdateAlternativePath::new("/usr/bin/javac", "javac"));
        jdk_paths.push(UpdateAlternativePath::new("/usr/bin/javadoc", "javadoc"));
        jdk_paths.push(UpdateAlternativePath::new("/usr/bin/javah", "javah"));
        jdk_paths.push(UpdateAlternativePath::new("/usr/bin/javap", "javap"));
        jdk_paths.push(UpdateAlternativePath::new("/usr/bin/javaws", "javaws"));
        assert(pairs_of(jre_paths@) =~= default_jre_pairs());
        assert(pairs_of(jdk_paths@) =~= default_jdk_pairs());
        UpdateAlternatives { jre_paths, jdk_paths }
    }
}

/// How installs are wired into the system's command resolution.
pub enum InstallMethod {
    UpdateAlternatives(UpdateAlternatives),
}

impl Default for InstallMethod {
    fn default() -> (r: InstallMethod)
        ensures
            r matches InstallMethod::UpdateAlternatives(a) && pairs_of(a.jre_paths@)
                == default_jre_pairs() && pairs_of(a.jdk_paths@) == default_jdk_pairs(),
    {
        InstallMethod::UpdateAlternatives(UpdateAlternatives::default())
    }
}

/// The system part of the tool's settings.
pub struct SysConfig {
    pub install_method: InstallMethod,
}

impl Default for SysConfig {
    fn default() -> (r: SysConfig)
        ensures
            r.install_method matches InstallMethod::UpdateAlternatives(a) && pairs_of(
                a.jre_paths@,
            ) == default_jre_pairs() && pairs_of(a.jdk_paths@) == default_jdk_pairs(),
    {
        SysConfig { install_method: InstallMethod::default() }
    }
}

/// The tool's settings: where installs go and how they are wired in.
pub struct Settings {
    pub install_location: String,
    pub default_version: Option<i64>,
    pub system: SysConfig,
}

impl Settings {
    /// The settings written on first run: installs under "/usr/lib/jvm",
    /// wired in through the alternatives system with its default pairs.
    pub fn initial() -> (r: Settings)
        ensures
            r.install_location@ == "/usr/lib/jvm"@,
            r.default_version is None,
            r.system.install_method matches InstallMethod::UpdateAlternatives(a) && pairs_of(
                a.jre_paths@,
            ) == default_jre_pairs() && pairs_of(a.jdk_paths@) == default_jdk_pairs(),
    {
        Settings {
            install_location: String::from_str("/usr/lib/jvm"),
            default_version: None,
            system: SysConfig::default(),
        }
    }
}

/// The configuration directory: the override when one is set, else "/etc/adoptium".
pub fn get_config_directory(override_dir: Option<&str>) -> (r: String)
    ensures
        override_dir matches Some(d) ==> r@ == d@,
        override_dir is None ==> r@ == "/etc/adoptium"@,
{
    match override_dir {
        Some(d) => String::from_str(d),
        None => String::from_str("/etc/adoptium"),
    }
}

/// The path of the settings file in a configuration directory.
pub fn settings_path(config_dir: &str) -> (r: String)
    ensures
        r@ == join_spec(config_dir@, "adoptium.toml"@),
{
    join(config_dir, "adoptium.toml")
}

} // verus!
