//! The set of installs: one record file per install, keyed by the install's id.
use crate::config::{InstallConfig, Settings};
use crate::error::{InstallerError, RecordError};
use crate::text::{join, join_spec};
use vstd::prelude::*;

verus! {

/// One install and the file that records it.
pub struct Install {
    pub install_file: String,
    pub config: InstallConfig,
}

/// Whether some install of the list has the id.
pub open spec fn has_install(installs: Seq<Install>, id: Seq<char>) -> bool {
    exists|i: int| 0 <= i < installs.len() && #[trigger] installs[i].config.id_spec() == id
}

/// The position of the first install with the id, if any.
pub open spec fn first_with_id(installs: Seq<Install>, id: Seq<char>, i: int) -> bool {
    &&& 0 <= i < installs.len()
    &&& installs[i].config.id_spec() == id
    &&& forall|j: int| 0 <= j < i ==> #[trigger] installs[j].config.id_spec() != id
}

/// The ids of a list are pairwise distinct.
pub open spec fn ids_unique(installs: Seq<Install>) -> bool {
    forall|i: int, j: int|
        0 <= i < installs.len() && 0 <= j < installs.len() && i != j
            ==> #[trigger] installs[i].config.id_spec() != #[trigger] installs[j].config.id_spec()
}

/// The path of the record file of an install with the given id:
/// "{config_dir}/installs/{id}.toml".
pub open spec fn record_path_spec(config_dir: Seq<char>, id: Seq<char>) -> Seq<char> {
    join_spec(join_spec(config_dir, "installs"@), id + ".toml"@)
}

/// The path of the record file of an install.
pub fn record_path(config_dir: &str, config: &InstallConfig) -> (r: String)
    ensures
        r@ == record_path_spec(config_dir@, config.id_spec()),
{
    let dir = join(config_dir, "installs");
    let mut name = config.id();
    name.append(".toml");
    join(dir.as_str(), name.as_str())
}

/// The path of the directory that holds the record files.
pub fn records_dir(config_dir: &str) -> (r: String)
    ensures
        r@ == join_spec(config_dir@, "installs"@),
{
    join(config_dir, "installs")
}

/// The record files found in the records directory, each with what reading it gave.
pub struct RecordListing {
    pub installs: Vec<Install>,
    /// The files that could not be read, in listing order.
    pub warnings: Vec<String>,
}

/// The installs of the entries that read successfully, in listing order.
pub open spec fn readable_installs(entries: Seq<(String, Result<InstallConfig, RecordError>)>) -> Seq<
    Install,
>
    decreases entries.len(),
{
    if entries.len() == 0 {
        Seq::empty()
    } else {
        let rest = readable_installs(entries.drop_last());
        match entries.last().1 {
            Ok(c) => rest.push(Install { install_file: entries.last().0, config: c }),
            Err(_) => rest,
        }
    }
}

/// The files of the entries that failed to read, in listing order.
pub open spec fn unreadable_files(entries: Seq<(String, Result<InstallConfig, RecordError>)>) -> Seq<
    String,
>
    decreases entries.len(),
{
    if entries.len() == 0 {
        Seq::empty()
    } else {
        let rest = unreadable_files(entries.drop_last());
        match entries.last().1 {
            Ok(_) => rest,
            Err(_) => rest.push(entries.last().0),
        }
    }
}

/// Gathers the installs out of the record files of a directory: a file that
/// failed to read is skipped with a warning, and never fails the listing.
pub fn collect_installs(entries: Vec<(String, Result<InstallConfig, RecordError>)>) -> (r:
    RecordListing)
    ensures
        r.installs@ == readable_installs(entries@),
        r.warnings@ == unreadable_files(entries@),
{
    let ghost all = entries@;
    let mut entries = entries;
    let mut installs: Vec<Install> = Vec::new();
    let mut warnings: Vec<String> = Vec::new();
    while entries.len() > 0
        invariant
            entries@.len() <= all.len(),
            entries@ == all.subrange(all.len() - entries@.len(), all.len() as int),
            installs@ == readable_installs(all.subrange(0, all.len() - entries@.len())),
            warnings@ == unreadable_files(all.subrange(0, all.len() - entries@.len())),
        decreases entries.len(),
    {
        let ghost k = all.len() - entries@.len();
        let (file, read) = entries.remove(0);
        proof {
            assert(all.subrange(0, k + 1).drop_last() =~= all.subrange(0, k));
            assert(all.subrange(0, k + 1).last() == (file, read));
            assert(entries@ =~= all.subrange(all.len() - entries@.len(), all.len() as int));
        }
        match read {
            Ok(config) => {
                installs.push(Install { install_file: file, config });
            },
            Err(_) => {
                warnings.push(file);
            },
        }
    }
    assert(all.subrange(0, all.len() as int) =~= all);
    RecordListing { installs, warnings }
}

/// The tool's settings and the installs it knows of.
pub struct Installer {
    pub settings: Settings,
    pub installs: Vec<Install>,
}

impl Installer {
    /// Whether an install with the same id as `config` exists.
    pub fn does_install_exist(&self, config: &InstallConfig) -> (r: bool)
        ensures
            r == has_install(self.installs@, config.id_spec()),
    {
        let id = config.id();
        match self.find_install(id.as_str()) {
            Some(_) => true,
            None => false,
        }
    }

    /// The position of the first install with the id; `None` when there is none.
    pub fn find_install(&self, id: &str) -> (r: Option<usize>)
        ensures
            r is None <==> !has_install(self.installs@, id@),
            r matches Some(i) ==> first_with_id(self.installs@, id@, i as int),
    {
        let mut i: usize = 0;
        while i < self.installs.len()
            invariant
                i <= self.installs@.len(),
                forall|j: int| 0 <= j < i ==> #[trigger] self.installs@[j].config.id_spec() != id@,
            decreases self.installs@.len() - i,
        {
            if self.installs[i].config.has_id(id) {
                return Some(i);
            }
            i = i + 1;
        }
        None
    }

    /// Adds the record of a new install, written to `install_file`. Fails
    /// with `AlreadyExists`, changing nothing, when an install with the same
    /// id is already recorded.
    pub fn add_install(&mut self, install_file: String, config: InstallConfig) -> (r: Result<
        (),
        RecordError,
    >)
        ensures
            final(self).settings == old(self).settings,
            has_install(old(self).installs@, config.id_spec()) ==> r == Err::<(), RecordError>(
                RecordError::AlreadyExists,
            ) && final(self).installs@ == old(self).installs@,
            !has_install(old(self).installs@, config.id_spec()) ==> r is Ok
                && final(self).installs@ == old(self).installs@.push(
                Install { install_file, config },
            ),
            ids_unique(old(self).installs@) ==> ids_unique(final(self).installs@),
    {
        if self.does_install_exist(&config) {
            return Err(RecordError::AlreadyExists);
        }
        let ghost before = self.installs@;
        self.installs.push(Install { install_file, config });
        proof {
            assert forall|i: int, j: int|
                0 <= i < self.installs@.len() && 0 <= j < self.installs@.len() && i != j
                    && ids_unique(before) implies #[trigger] self.installs@[i].config.id_spec()
                != #[trigger] self.installs@[j].config.id_spec() by {
                if i < before.len() && j < before.len() {
                    assert(self.installs@[i] == before[i]);
                    assert(self.installs@[j] == before[j]);
                } else if i < before.len() {
                    assert(self.installs@[i] == before[i]);
                } else {
                    assert(self.installs@[j] == before[j]);
                }
            }
        }
        Ok(())
    }

    /// Removes the first install with the id and hands it back; fails with
    /// `NotFound`, changing nothing, when no install has it.
    pub fn remove_install(&mut self, id: &str) -> (r: Result<Install, InstallerError>)
        ensures
            final(self).settings == old(self).settings,
            !has_install(old(self).installs@, id@) ==> r is Err && final(self).installs@ == old(
                self,
            ).installs@,
            r is Err ==> r->Err_0 is NotFound && final(self).installs@ == old(self).installs@,
            has_install(old(self).installs@, id@) ==> r is Ok,
            r matches Ok(inst) ==> exists|i: int|
                first_with_id(old(self).installs@, id@, i) && inst == old(self).installs@[i]
                    && final(self).installs@ == old(self).installs@.remove(i),
            ids_unique(old(self).installs@) ==> ids_unique(final(self).installs@),
    {
        match self.find_install(id) {
            None => Err(InstallerError::NotFound(String::from_str(id))),
            Some(i) => {
                let ghost before = self.installs@;
                let inst = self.installs.remove(i);
                proof {
                    assert forall|a: int, b: int|
                        0 <= a < self.installs@.len() && 0 <= b < self.installs@.len() && a != b
                            && ids_unique(before) implies #[trigger] self.installs@[a].config.id_spec()
                        != #[trigger] self.installs@[b].config.id_spec() by {
                        let a0 = if a < i { a } else { a + 1 };
                        let b0 = if b < i { b } else { b + 1 };
                        assert(self.installs@[a] == before[a0]);
                        assert(self.installs@[b] == before[b0]);
                    }
                }
                Ok(inst)
            },
        }
    }
}

/// Recording an install is exclusive. After `add_install` put `first` on a
/// list (`before.push(first)`), the list has `first`'s id, so by the contract
/// of `add_install` a second record with the same id is refused with
/// `AlreadyExists` and changes nothing; after one successful add to an empty
/// list, the list holds exactly that install.
pub proof fn lemma_add_install_exclusive(before: Seq<Install>, first: Install, second: InstallConfig)
    requires
        second.id_spec() == first.config.id_spec(),
    ensures
        has_install(before.push(first), second.id_spec()),
        before.len() == 0 ==> before.push(first) == seq![first],
{
    assert(before.push(first)[before.len() as int] == first);
    if before.len() == 0 {
        assert(before.push(first) =~= seq![first]);
    }
}

} // verus!
