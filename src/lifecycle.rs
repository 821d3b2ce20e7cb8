//! The install, update and uninstall decisions, and the stages an install
//! goes through. Each decision takes what the outside world answered (the
//! catalog's releases, the clock) as arguments and says what to do.
use crate::config::{install_id, InstallConfig, InstallSettings, InstallTime};
use crate::error::{AdoptiumError, InstallerError};
use crate::request::{newest_release_query, newest_release_request, ReleaseInformationParams};
use crate::response::{Binary, ReleaseInformationDatum};
use crate::store::{has_install, Install, Installer};
use crate::text::{join, join_spec};
use crate::types::{AdoptiumJvmImpl, ImageType, ReleaseType, SystemProperties};
use crate::version::{compare_keys, VersionData};
use core::cmp::Ordering;
use vstd::prelude::*;

verus! {

#[verifier::external_type_specification]
#[verifier::external_body]
pub struct ExUrl(url::Url);

#[verifier::external_type_specification]
#[verifier::external_body]
pub struct ExParseError(url::ParseError);

/// Whether a text is an absolute URL.
pub uninterp spec fn url_parses(s: Seq<char>) -> bool;

/// Relies on `url::Url::parse`: whether a text parses as an absolute URL
/// depends on the text alone.
#[verifier::external_body]
fn parse_url(s: &str) -> (r: Result<url::Url, url::ParseError>)
    ensures
        r is Ok <==> url_parses(s@),
{
    url::Url::parse(s)
}

/// Where to fetch an archive from and where to unpack it.
pub struct DownloadPlan {
    pub url: url::Url,
    /// The announced size in bytes; for progress display only.
    pub size: u64,
    /// The directory to unpack into; it is emptied first.
    pub target: String,
}

/// The announced size of a package as a byte count; a negative size counts as zero.
pub open spec fn size_of(size: i64) -> u64 {
    if size < 0 {
        0
    } else {
        size as u64
    }
}

/// What a package announces, checked: its link parsed, its size, and the
/// directory to unpack into.
fn plan_download(binary: &Binary, target: String) -> (r: Result<DownloadPlan, InstallerError>)
    ensures
        url_parses(binary.package.link@) <==> r is Ok,
        r is Err ==> r == Err::<DownloadPlan, InstallerError>(
            InstallerError::Adoptium(AdoptiumError::InvalidUrl),
        ),
        r matches Ok(p) ==> p.size == size_of(binary.package.size) && p.target == target,
{
    match parse_url(binary.package.link.as_str()) {
        Ok(url) => {
            let size: u64 = if binary.package.size < 0 {
                0
            } else {
                binary.package.size as u64
            };
            Ok(DownloadPlan { url, size, target })
        },
        Err(_) => Err(InstallerError::Adoptium(AdoptiumError::InvalidUrl)),
    }
}

/// A request to install a feature version.
#[derive(Clone, Copy, Debug, PartialEq, Eq, Structural)]
pub struct InstallCommand {
    /// Defaults to JDK
    pub image_type: Option<ImageType>,
    pub jvm_impl: Option<AdoptiumJvmImpl>,
    /// Defaults to GA
    pub release_type: Option<ReleaseType>,
    /// A Java Version
    pub version: i64,
}

impl InstallCommand {
    /// The release type asked for, general availability by default.
    pub open spec fn release_type_spec(&self) -> ReleaseType {
        match self.release_type {
            Some(t) => t,
            None => ReleaseType::GeneralAvailability,
        }
    }

    /// The catalog query for the newest matching release on `system`.
    pub fn request(&self, system: SystemProperties) -> (r: ReleaseInformationParams)
        ensures
            r == newest_release_query(
                self.version,
                self.release_type_spec(),
                self.image_type,
                self.jvm_impl,
                system,
            ),
    {
        let release_type = match self.release_type {
            Some(t) => t,
            None => ReleaseType::default(),
        };
        newest_release_request(self.version, release_type, self.image_type, self.jvm_impl, system)
    }
}

/// The catalog query for the newest release that an install's settings ask for.
pub fn latest_version_request(settings: &InstallSettings, system: SystemProperties) -> (r:
    ReleaseInformationParams)
    ensures
        r == newest_release_query(
            settings.feature_version,
            settings.release_type,
            Some(settings.image_type),
            Some(settings.jvm_impl),
            system,
        ),
{
    newest_release_request(
        settings.feature_version,
        settings.release_type,
        Some(settings.image_type),
        Some(settings.jvm_impl),
        system,
    )
}

/// The settings of an install made from a release and its binary.
pub open spec fn settings_from(
    feature_version: i64,
    release: ReleaseInformationDatum,
    binary: Binary,
) -> InstallSettings {
    InstallSettings {
        heap_size: binary.heap_size,
        image_type: binary.image_type,
        jvm_impl: binary.jvm_impl,
        vendor: release.vendor,
        project: binary.project,
        c_lib: None,
        release_type: release.release_type,
        feature_version,
    }
}

/// The release the catalog ranks first; its answer is sorted newest first.
/// `NoRelease` when the answer is empty.
pub fn newest_release(releases: Vec<ReleaseInformationDatum>) -> (r: Result<
    ReleaseInformationDatum,
    InstallerError,
>)
    ensures
        releases@.len() == 0 ==> r == Err::<ReleaseInformationDatum, InstallerError>(
            InstallerError::Adoptium(AdoptiumError::NoRelease),
        ),
        releases@.len() > 0 ==> r == Ok::<ReleaseInformationDatum, InstallerError>(releases@[0]),
{
    let mut releases = releases;
    if releases.len() == 0 {
        return Err(InstallerError::Adoptium(AdoptiumError::NoRelease));
    }
    Ok(releases.remove(0))
}

/// The work of one install or update: the record it will write and the download.
pub struct InstallJob {
    pub config: InstallConfig,
    pub download: DownloadPlan,
}

/// What an install request comes to.
pub enum InstallDecision {
    /// An install with the same id exists; nothing is to be done.
    AlreadyInstalled,
    Proceed(InstallJob),
}

impl Installer {
    /// Decides an install from the catalog's answer: its first release and
    /// that release's first binary. The record gets the install directory
    /// "{install_location}/{id}" and the time `now`; the archive is unpacked
    /// into "{temp_root}/{id}" first.
    pub fn prepare_install(
        &self,
        feature_version: i64,
        releases: Vec<ReleaseInformationDatum>,
        now: InstallTime,
        temp_root: &str,
    ) -> (r: Result<InstallDecision, InstallerError>)
        ensures
            releases@.len() == 0 ==> r == Err::<InstallDecision, InstallerError>(
                InstallerError::Adoptium(AdoptiumError::NoRelease),
            ),
            releases@.len() > 0 && releases@[0].binaries@.len() == 0 ==> r == Err::<
                InstallDecision,
                InstallerError,
            >(InstallerError::Adoptium(AdoptiumError::NoBinary)),
            releases@.len() > 0 && releases@[0].binaries@.len() > 0 ==> {
                let release = releases@[0];
                let binary = release.binaries@[0];
                let settings = settings_from(feature_version, release, binary);
                let id = install_id(release.version_data.major, settings);
                &&& has_install(self.installs@, id) ==> (r is Ok
                    && r->Ok_0 is AlreadyInstalled)
                &&& !has_install(self.installs@, id) && !url_parses(binary.package.link@) ==> r
                    == Err::<InstallDecision, InstallerError>(
                    InstallerError::Adoptium(AdoptiumError::InvalidUrl),
                )
                &&& !has_install(self.installs@, id) && url_parses(binary.package.link@) ==> (
                r matches Ok(InstallDecision::Proceed(job)) && job.config.install_settings
                    == settings && job.config.id_spec() == id
                    && job.config.current_version == release.version_data
                    && job.config.install_time == now && job.config.install_location@
                    == join_spec(self.settings.install_location@, id) && job.download.size
                    == size_of(binary.package.size) && job.download.target@ == join_spec(
                    temp_root@,
                    id,
                ))
            },
    {
        let mut release = newest_release(releases)?;
        if release.binaries.len() == 0 {
            return Err(InstallerError::Adoptium(AdoptiumError::NoBinary));
        }
        let binary = release.binaries.remove(0);
        let settings = InstallSettings {
            heap_size: binary.heap_size,
            image_type: binary.image_type,
            jvm_impl: binary.jvm_impl,
            vendor: release.vendor,
            project: binary.project,
            c_lib: None,
            release_type: release.release_type,
            feature_version,
        };
        let config = InstallConfig {
            install_location: String::new(),
            install_time: now,
            install_settings: settings,
            current_version: release.version_data,
        };
        if self.does_install_exist(&config) {
            return Ok(InstallDecision::AlreadyInstalled);
        }
        let id = config.id();
        let target = join(temp_root, id.as_str());
        let download = plan_download(&binary, target)?;
        let install_location = join(self.settings.install_location.as_str(), id.as_str());
        let config = InstallConfig { install_location, ..config };
        Ok(InstallDecision::Proceed(InstallJob { config, download }))
    }

    /// Records that the install at `index` now holds the content of `config`:
    /// its file stays, its record is replaced.
    pub fn apply_update(&mut self, index: usize, config: InstallConfig)
        requires
            index < old(self).installs@.len(),
        ensures
            final(self).settings == old(self).settings,
            final(self).installs@ == old(self).installs@.update(
                index as int,
                Install { install_file: old(self).installs@[index as int].install_file, config },
            ),
    {
        let ghost before = self.installs@;
        let mut install = self.installs.remove(index);
        install.config = config;
        self.installs.insert(index, install);
        assert(self.installs@ =~= before.update(
            index as int,
            Install { install_file: before[index as int].install_file, config },
        ));
    }
}

/// What an update of one install comes to.
pub enum UpdateDecision {
    /// The catalog has nothing newer; nothing is to be done.
    Current,
    Update(InstallJob),
}

/// Decides the update of an install from the newest release the catalog
/// lists for its settings. Only a strictly newer version is installed; the
/// new record keeps the settings and the install directory, and takes the new
/// version and the time `now`. The archive is unpacked into
/// "{temp_root}/{new id}" first.
pub fn prepare_update(
    install: &Install,
    latest: ReleaseInformationDatum,
    now: InstallTime,
    temp_root: &str,
) -> (r: Result<UpdateDecision, InstallerError>)
    ensures
        compare_keys(latest.version_data.key(), install.config.current_version.key())
            != Ordering::Greater ==> (r is Ok && r->Ok_0 is Current),
        compare_keys(latest.version_data.key(), install.config.current_version.key())
            == Ordering::Greater ==> {
            &&& latest.binaries@.len() == 0 ==> r == Err::<UpdateDecision, InstallerError>(
                InstallerError::Adoptium(AdoptiumError::NoBinary),
            )
            &&& latest.binaries@.len() > 0 && !url_parses(latest.binaries@[0].package.link@) ==> r
                == Err::<UpdateDecision, InstallerError>(
                InstallerError::Adoptium(AdoptiumError::InvalidUrl),
            )
            &&& latest.binaries@.len() > 0 && url_parses(latest.binaries@[0].package.link@) ==> (
            r matches Ok(UpdateDecision::Update(job)) && job.config.current_version
                == latest.version_data && job.config.install_time == now
                && job.config.install_settings == install.config.install_settings
                && job.config.install_location@ == install.config.install_location@
                && job.download.size == size_of(latest.binaries@[0].package.size)
                && job.download.target@ == join_spec(temp_root@, job.config.id_spec()))
        },
{
    if !latest.version_data.is_newer_than(&install.config.current_version) {
        return Ok(UpdateDecision::Current);
    }
    if latest.binaries.len() == 0 {
        return Err(InstallerError::Adoptium(AdoptiumError::NoBinary));
    }
    let config = InstallConfig {
        install_location: install.config.install_location.clone(),
        install_time: now,
        install_settings: install.config.install_settings,
        current_version: latest.version_data,
    };
    let id = config.id();
    let target = join(temp_root, id.as_str());
    let download = plan_download(&latest.binaries[0], target)?;
    Ok(UpdateDecision::Update(InstallJob { config, download }))
}

/// The positions `0, 1, ..., n - 1`.
pub open spec fn all_positions(n: nat) -> Seq<usize> {
    Seq::new(n, |i: int| i as usize)
}

impl Installer {
    /// The installs an update request names, in listing order: every install
    /// for "all", else the first install with that id; `NotFound` when no
    /// install has it.
    pub fn update_targets(&self, target: &str) -> (r: Result<Vec<usize>, InstallerError>)
        ensures
            target@ == "all"@ ==> (r matches Ok(v) && v@ == all_positions(self.installs@.len())),
            target@ != "all"@ && has_install(self.installs@, target@) ==> (r matches Ok(v)
                && v@.len() == 1 && crate::store::first_with_id(
                self.installs@,
                target@,
                v@[0] as int,
            )),
            target@ != "all"@ && !has_install(self.installs@, target@) ==> r is Err
                && r->Err_0 is NotFound,
    {
        if crate::text::str_eq(target, "all") {
            let mut v: Vec<usize> = Vec::new();
            let mut i: usize = 0;
            while i < self.installs.len()
                invariant
                    i <= self.installs@.len(),
                    v@ == all_positions(i as nat),
                decreases self.installs@.len() - i,
            {
                v.push(i);
                assert(v@ =~= all_positions((i + 1) as nat));
                i = i + 1;
            }
            return Ok(v);
        }
        match self.find_install(target) {
            Some(i) => {
                let mut v: Vec<usize> = Vec::new();
                v.push(i);
                Ok(v)
            },
            None => Err(InstallerError::NotFound(String::from_str(target))),
        }
    }
}

/// One step of an install.
#[derive(Clone, Copy, Debug, PartialEq, Eq, Structural)]
pub enum Step {
    Resolve,
    Download,
    Extract,
    Relocate,
    Integrate,
    Record,
}

/// Where an install attempt stands.
#[derive(Clone, Copy, Debug, PartialEq, Eq, Structural)]
pub enum InstallStage {
    /// The step under way.
    At(Step),
    /// Every step succeeded and the record is written.
    Recorded,
    /// The step failed; no record is written.
    Failed(Step),
}

/// The step after a successful one, or `None` after the last.
pub open spec fn next_step(s: Step) -> Option<Step> {
    match s {
        Step::Resolve => Some(Step::Download),
        Step::Download => Some(Step::Extract),
        Step::Extract => Some(Step::Relocate),
        Step::Relocate => Some(Step::Integrate),
        Step::Integrate => Some(Step::Record),
        Step::Record => None,
    }
}

/// The stage after the current step ends, well or not.
pub open spec fn advance_spec(stage: InstallStage, ok: bool) -> InstallStage {
    match stage {
        InstallStage::At(s) => if !ok {
            InstallStage::Failed(s)
        } else {
            match next_step(s) {
                Some(n) => InstallStage::At(n),
                None => InstallStage::Recorded,
            }
        },
        _ => stage,
    }
}

/// The stage after a sequence of step outcomes.
pub open spec fn stages_run(stage: InstallStage, outcomes: Seq<bool>) -> InstallStage
    decreases outcomes.len(),
{
    if outcomes.len() == 0 {
        stage
    } else {
        stages_run(advance_spec(stage, outcomes[0]), outcomes.drop_first())
    }
}

impl InstallStage {
    /// The first stage of an install.
    pub fn start() -> (r: InstallStage)
        ensures
            r == InstallStage::At(Step::Resolve),
    {
        InstallStage::At(Step::Resolve)
    }

    /// The stage after the current step ended; `ok` says whether it succeeded.
    /// A finished attempt stays as it is.
    pub fn advance(self, ok: bool) -> (r: InstallStage)
        ensures
            r == advance_spec(self, ok),
    {
        match self {
            InstallStage::At(s) => {
                if !ok {
                    return InstallStage::Failed(s);
                }
                match s {
                    Step::Resolve => InstallStage::At(Step::Download),
                    Step::Download => InstallStage::At(Step::Extract),
                    Step::Extract => InstallStage::At(Step::Relocate),
                    Step::Relocate => InstallStage::At(Step::Integrate),
                    Step::Integrate => InstallStage::At(Step::Record),
                    Step::Record => InstallStage::Recorded,
                }
            },
            _ => self,
        }
    }

    /// Whether the attempt is over, well or not.
    pub fn is_finished(&self) -> (r: bool)
        ensures
            r == !(self is At),
    {
        match self {
            InstallStage::At(_) => false,
            _ => true,
        }
    }
}

/// A failed attempt stays failed, whatever follows.
proof fn lemma_failed_stays(s: Step, outcomes: Seq<bool>)
    ensures
        stages_run(InstallStage::Failed(s), outcomes) == InstallStage::Failed(s),
    decreases outcomes.len(),
{
    if outcomes.len() > 0 {
        lemma_failed_stays(s, outcomes.drop_first());
    }
}

/// A recorded attempt stays recorded, whatever follows.
proof fn lemma_recorded_stays(outcomes: Seq<bool>)
    ensures
        stages_run(InstallStage::Recorded, outcomes) == InstallStage::Recorded,
    decreases outcomes.len(),
{
    if outcomes.len() > 0 {
        lemma_recorded_stays(outcomes.drop_first());
    }
}

/// The number of steps from a step to the end, that step included.
pub open spec fn steps_left(s: Step) -> nat {
    match s {
        Step::Resolve => 6,
        Step::Download => 5,
        Step::Extract => 4,
        Step::Relocate => 3,
        Step::Integrate => 2,
        Step::Record => 1,
    }
}

proof fn lemma_recorded_needs_success(s: Step, outcomes: Seq<bool>)
    requires
        stages_run(InstallStage::At(s), outcomes) == InstallStage::Recorded,
    ensures
        outcomes.len() >= steps_left(s),
        forall|i: int| 0 <= i < steps_left(s) ==> #[trigger] outcomes[i],
    decreases outcomes.len(),
{
    if outcomes.len() == 0 {
    } else if !outcomes[0] {
        lemma_failed_stays(s, outcomes.drop_first());
    } else {
        match next_step(s) {
            Some(n) => {
                lemma_recorded_needs_success(n, outcomes.drop_first());
                assert forall|i: int| 0 <= i < steps_left(s) implies #[trigger] outcomes[i] by {
                    if i > 0 {
                        assert(outcomes[i] == outcomes.drop_first()[i - 1]);
                    }
                }
            },
            None => {},
        }
    }
}

/// An install is recorded only after each of its six steps (resolve,
/// download, extract, relocate, integrate, record) succeeded, in that order;
/// once a step fails the attempt stays failed and never reaches the record.
pub proof fn lemma_record_only_after_every_step(outcomes: Seq<bool>)
    ensures
        stages_run(InstallStage::At(Step::Resolve), outcomes) == InstallStage::Recorded
            ==> outcomes.len() >= 6 && forall|i: int| 0 <= i < 6 ==> #[trigger] outcomes[i],
        forall|s: Step, rest: Seq<bool>|
            #[trigger] stages_run(InstallStage::Failed(s), rest) != InstallStage::Recorded,
{
    if stages_run(InstallStage::At(Step::Resolve), outcomes) == InstallStage::Recorded {
        lemma_recorded_needs_success(Step::Resolve, outcomes);
    }
    assert forall|s: Step, rest: Seq<bool>|
        #[trigger] stages_run(InstallStage::Failed(s), rest) != InstallStage::Recorded by {
        lemma_failed_stays(s, rest);
    }
}

/// Whether an install is on the newest version.
pub enum UpToDate {
    Yes,
    /// A newer version exists; its display text.
    No(String),
}

impl UpToDate {
    /// "Yes", or "No(Latest: {version})".
    pub fn describe(&self) -> (r: String)
        ensures
            self is Yes ==> r@ == "Yes"@,
            self matches UpToDate::No(v) ==> r@ == "No(Latest: "@ + v@ + ")"@,
    {
        match self {
            UpToDate::Yes => String::from_str("Yes"),
            UpToDate::No(v) => {
                let mut s = String::from_str("No(Latest: ");
                s.append(v.as_str());
                s.append(")");
                s
            },
        }
    }
}

/// Classifies an installed version against the newest the catalog lists:
/// stale, with the newer display text, exactly when the newest is strictly greater.
pub fn up_to_date(current: &VersionData, latest: &VersionData) -> (r: UpToDate)
    ensures
        compare_keys(latest.key(), current.key()) == Ordering::Greater ==> (r matches UpToDate::No(
            v,
        ) && v@ == latest.semver@),
        compare_keys(latest.key(), current.key()) != Ordering::Greater ==> r is Yes,
{
    if latest.is_newer_than(current) {
        UpToDate::No(latest.semver.clone())
    } else {
        UpToDate::Yes
    }
}

/// One row of the listing of installs.
pub struct InstallTable {
    pub version: String,
    pub location: String,
    pub installed_on: String,
    pub id: String,
    pub up_to_date: UpToDate,
}

/// The row of an install, given the newest version the catalog lists for it.
pub fn table_row(install: &Install, latest: &VersionData) -> (r: InstallTable)
    ensures
        r.version@ == install.config.current_version.semver@,
        r.location@ == install.config.install_location@,
        r.id@ == install.config.id_spec(),
        compare_keys(latest.key(), install.config.current_version.key()) == Ordering::Greater
            ==> (r.up_to_date matches UpToDate::No(v) && v@ == latest.semver@),
        compare_keys(latest.key(), install.config.current_version.key()) != Ordering::Greater
            ==> r.up_to_date is Yes,
{
    let installed_on = match install.config.human_date_time() {
        Some(t) => t,
        None => String::from_str("Unknown"),
    };
    InstallTable {
        version: install.config.current_version.semver.clone(),
        location: install.config.install_location.clone(),
        installed_on,
        id: install.config.id(),
        up_to_date: up_to_date(&install.config.current_version, latest),
    }
}

/// The listing command; it takes no options.
#[derive(Clone, Copy, Debug, PartialEq, Eq, Structural)]
pub struct ListCommand {}

/// The uninstall command: the id of the install to remove.
pub struct UninstallCommand {
    pub version: String,
}

/// The update command: list the stale installs, or update one or "all".
pub struct UpdateCommand {
    pub list: bool,
    pub update: Option<String>,
}

} // verus!
