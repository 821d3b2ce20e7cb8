//! The filesystem work of relocation and uninstall, as ordered steps that the
//! caller carries out one by one.
use crate::config::SysConfig;
use crate::error::InstallerError;
use crate::integration::{remove_install, remove_plan, SystemCommand};
use crate::store::{first_with_id, has_install, Installer};
use crate::text::{join, join_spec};
use vstd::prelude::*;

verus! {

/// One piece of filesystem or system work.
pub enum PlanStep {
    /// Run a command; a non-zero exit is reported, not fatal.
    Run(SystemCommand),
    /// Remove a directory tree, if it exists.
    RemoveTree(String),
    /// Create a directory and its parents.
    CreateDir(String),
    /// Move a file or directory.
    Move(String, String),
    /// Remove a file.
    RemoveFile(String),
}

/// What a step does, over plain values.
pub enum StepView {
    Run((Seq<char>, Seq<Seq<char>>)),
    RemoveTree(Seq<char>),
    CreateDir(Seq<char>),
    Move(Seq<char>, Seq<char>),
    RemoveFile(Seq<char>),
}

impl View for PlanStep {
    type V = StepView;

    open spec fn view(&self) -> StepView {
        match self {
            PlanStep::Run(c) => StepView::Run(c@),
            PlanStep::RemoveTree(p) => StepView::RemoveTree(p@),
            PlanStep::CreateDir(p) => StepView::CreateDir(p@),
            PlanStep::Move(a, b) => StepView::Move(a@, b@),
            PlanStep::RemoveFile(p) => StepView::RemoveFile(p@),
        }
    }
}

/// What a list of steps does.
pub open spec fn steps_view(v: Seq<PlanStep>) -> Seq<StepView> {
    v.map_values(|s: PlanStep| s@)
}

proof fn lemma_steps_push(v: Seq<PlanStep>, x: PlanStep)
    ensures
        steps_view(v.push(x)) == steps_view(v).push(x@),
{
    assert(steps_view(v.push(x)) =~= steps_view(v).push(x@));
}

/// An entry of an unpacked tree, as a depth-first walk meets it.
pub struct DirEntryInfo {
    pub path: String,
    pub is_dir: bool,
    /// Whether the entry holds a `bin` subdirectory.
    pub has_bin: bool,
}

/// Whether an entry is the root of a payload.
pub open spec fn is_payload(e: DirEntryInfo) -> bool {
    e.is_dir && e.has_bin
}

/// The root of the payload in an unpacked tree: the first entry of the
/// depth-first walk that is a directory holding `bin`; the tree's own root when none is.
pub open spec fn payload_root_spec(root: Seq<char>, entries: Seq<DirEntryInfo>) -> Seq<char>
    decreases entries.len(),
{
    if entries.len() == 0 {
        root
    } else if is_payload(entries[0]) {
        entries[0].path@
    } else {
        payload_root_spec(root, entries.drop_first())
    }
}

/// Finds the root of the payload in the tree unpacked at `extracted`, given
/// the tree's entries in depth-first order.
pub fn find_internal_data(extracted: &str, entries: &Vec<DirEntryInfo>) -> (r: String)
    ensures
        r@ == payload_root_spec(extracted@, entries@),
{
    let mut i: usize = 0;
    assert(entries@.subrange(0, entries@.len() as int) =~= entries@);
    while i < entries.len()
        invariant
            i <= entries@.len(),
            payload_root_spec(extracted@, entries@) == payload_root_spec(
                extracted@,
                entries@.subrange(i as int, entries@.len() as int),
            ),
        decreases entries@.len() - i,
    {
        let ghost rest = entries@.subrange(i as int, entries@.len() as int);
        assert(rest.drop_first() =~= entries@.subrange(i + 1, entries@.len() as int));
        if entries[i].is_dir && entries[i].has_bin {
            return entries[i].path.clone();
        }
        i = i + 1;
    }
    String::from_str(extracted)
}

/// The moves of relocation: each child of the payload root into the install directory.
pub open spec fn moves_spec(root: Seq<char>, children: Seq<Seq<char>>, location: Seq<char>) -> Seq<
    StepView,
> {
    children.map_values(
        |c: Seq<char>| StepView::Move(join_spec(root, c), join_spec(location, c)),
    )
}

/// Relocation: the install directory is removed and created afresh, then
/// each child of the payload root is moved into it, in order.
pub open spec fn relocation_spec(root: Seq<char>, children: Seq<Seq<char>>, location: Seq<char>) -> Seq<
    StepView,
> {
    seq![StepView::RemoveTree(location), StepView::CreateDir(location)] + moves_spec(
        root,
        children,
        location,
    )
}

/// The steps that move the payload at `root`, whose children are named in
/// `children`, into the install directory `location`.
pub fn move_data(root: &str, children: &Vec<String>, location: &str) -> (r: Vec<PlanStep>)
    ensures
        steps_view(r@) == relocation_spec(root@, children@.map_values(|c: String| c@), location@),
{
    let ghost names = children@.map_values(|c: String| c@);
    let mut r: Vec<PlanStep> = Vec::new();
    r.push(PlanStep::RemoveTree(String::from_str(location)));
    r.push(PlanStep::CreateDir(String::from_str(location)));
    assert(steps_view(r@) =~= seq![StepView::RemoveTree(location@), StepView::CreateDir(location@)]
        + moves_spec(root@, names.subrange(0, 0), location@));
    let mut i: usize = 0;
    while i < children.len()
        invariant
            i <= children@.len(),
            names == children@.map_values(|c: String| c@),
            steps_view(r@) == seq![StepView::RemoveTree(location@), StepView::CreateDir(location@)]
                + moves_spec(root@, names.subrange(0, i as int), location@),
        decreases children@.len() - i,
    {
        let from = join(root, children[i].as_str());
        let to = join(location, children[i].as_str());
        let ghost before = r@;
        let step = PlanStep::Move(from, to);
        r.push(step);
        proof {
            lemma_steps_push(before, step);
            assert(names[i as int] == children@[i as int]@);
            assert(moves_spec(root@, names.subrange(0, i + 1), location@) =~= moves_spec(
                root@,
                names.subrange(0, i as int),
                location@,
            ).push(step@));
            assert(steps_view(r@) =~= seq![
                StepView::RemoveTree(location@),
                StepView::CreateDir(location@),
            ] + moves_spec(root@, names.subrange(0, i + 1), location@));
        }
        i = i + 1;
    }
    assert(names.subrange(0, i as int) =~= names);
    r
}

/// One `Run` step per command, in order.
pub open spec fn run_steps(cmds: Seq<(Seq<char>, Seq<Seq<char>>)>) -> Seq<StepView> {
    cmds.map_values(|c: (Seq<char>, Seq<Seq<char>>)| StepView::Run(c))
}

/// Uninstall: the system integration is withdrawn first, then the install
/// directory is removed, and the record file last.
pub open spec fn uninstall_spec(
    sys: SysConfig,
    image_type: crate::types::ImageType,
    location: Seq<char>,
    record_file: Seq<char>,
) -> Seq<StepView> {
    run_steps(remove_plan(sys.install_method, image_type, location)) + seq![StepView::RemoveTree(location), StepView::RemoveFile(record_file)]
}

impl Installer {
    /// Plans the uninstall of the first install with the id, and says which
    /// install it is; `NotFound` when no install has the id. Nothing changes
    /// here: the caller carries out the steps, then drops the install with
    /// `remove_install`.
    pub fn plan_uninstall(&self, id: &str) -> (r: Result<(usize, Vec<PlanStep>), InstallerError>)
        ensures
            !has_install(self.installs@, id@) ==> r is Err && r->Err_0 is NotFound,
            has_install(self.installs@, id@) ==> r is Ok,
            r matches Ok(p) ==> first_with_id(self.installs@, id@, p.0 as int) && steps_view(p.1@)
                == uninstall_spec(
                self.settings.system,
                self.installs@[p.0 as int].config.install_settings.image_type,
                self.installs@[p.0 as int].config.install_location@,
                self.installs@[p.0 as int].install_file@,
            ),
    {
        let i = match self.find_install(id) {
            Some(i) => i,
            None => {
                return Err(InstallerError::NotFound(String::from_str(id)));
            },
        };
        let install = &self.installs[i];
        let location = install.config.install_location.as_str();
        let mut commands = remove_install(
            &self.settings.system,
            install.config.install_settings.image_type,
            location,
        );
        let ghost cmds = crate::integration::commands_view(commands@);
        let mut r: Vec<PlanStep> = Vec::new();
        let ghost total = commands@.len();
        while commands.len() > 0
            invariant
                commands@.len() <= total,
                cmds.len() == total,
                forall|j: int|
                    0 <= j < commands@.len() ==> #[trigger] commands@[j]@ == cmds[(total
                        - commands@.len()) + j],
                steps_view(r@) == run_steps(cmds.subrange(0, total - commands@.len())),
            decreases commands.len(),
        {
            let ghost k = total - commands@.len();
            let ghost prev = commands@;
            let c = commands.remove(0);
            let ghost before = r@;
            let step = PlanStep::Run(c);
            r.push(step);
            proof {
                lemma_steps_push(before, step);
                assert(c@ == cmds[k]);
                assert(run_steps(cmds.subrange(0, k + 1)) =~= run_steps(cmds.subrange(0, k)).push(
                    step@,
                ));
                assert forall|j: int| 0 <= j < commands@.len() implies #[trigger] commands@[j]@
                    == cmds[(total - commands@.len()) + j] by {
                    assert(commands@[j] == prev[j + 1]);
                }
            }
        }
        let ghost before = r@;
        let s1 = PlanStep::RemoveTree(install.config.install_location.clone());
        r.push(s1);
        let s2 = PlanStep::RemoveFile(install.install_file.clone());
        r.push(s2);
        proof {
            lemma_steps_push(before, s1);
            lemma_steps_push(before.push(s1), s2);
            assert(cmds.subrange(0, total as int) =~= cmds);
            assert(steps_view(r@) =~= uninstall_spec(
                self.settings.system,
                self.installs@[i as int].config.install_settings.image_type,
                self.installs@[i as int].config.install_location@,
                self.installs@[i as int].install_file@,
            ));
        }
        Ok((i, r))
    }
}

} // verus!
