//! Wiring an install into the system's command resolution, and undoing it.
//! The adapter plans the commands; running them is left to the caller, which
//! hands back their exit codes.
use crate::config::{pairs_of, InstallMethod, SysConfig, UpdateAlternativePath};
use crate::text::{join, join_spec};
use crate::types::ImageType;
use vstd::prelude::*;

verus! {

/// A program to run with its arguments.
pub struct SystemCommand {
    pub program: String,
    pub args: Vec<String>,
}

impl View for SystemCommand {
    type V = (Seq<char>, Seq<Seq<char>>);

    open spec fn view(&self) -> (Seq<char>, Seq<Seq<char>>) {
        (self.program@, self.args@.map_values(|a: String| a@))
    }
}

/// The views of a list of commands.
pub open spec fn commands_view(v: Seq<SystemCommand>) -> Seq<(Seq<char>, Seq<Seq<char>>)> {
    v.map_values(|c: SystemCommand| c@)
}

/// The pairs an integration method registers for an image type; `None` for
/// an image type that it does not wire in.
pub open spec fn pairs_for(method: InstallMethod, image_type: ImageType) -> Option<
    Seq<(Seq<char>, Seq<char>)>,
> {
    match method {
        InstallMethod::UpdateAlternatives(a) => match image_type {
            ImageType::JDK => Some(pairs_of(a.jdk_paths@)),
            ImageType::JRE => Some(pairs_of(a.jre_paths@)),
            _ => None,
        },
    }
}

/// The binary an install provides for an executable: "{location}/bin/{exec}".
pub open spec fn binary_path(location: Seq<char>, exec: Seq<char>) -> Seq<char> {
    join_spec(join_spec(location, "bin"@), exec)
}

/// The command that registers one pair as a priority-1 alternative.
pub open spec fn register_command(location: Seq<char>, pair: (Seq<char>, Seq<char>)) -> (
    Seq<char>,
    Seq<Seq<char>>,
) {
    (
        "update-alternatives"@,
        seq!["--install"@, pair.0, pair.1, binary_path(location, pair.1), "1"@],
    )
}

/// The command that withdraws the alternative of one pair.
pub open spec fn unregister_command(location: Seq<char>, pair: (Seq<char>, Seq<char>)) -> (
    Seq<char>,
    Seq<Seq<char>>,
) {
    ("update-alternatives"@, seq!["--remove"@, pair.1, binary_path(location, pair.1)])
}

/// The command that makes the installed tree readable and executable by all.
pub open spec fn permissions_command(location: Seq<char>) -> (Seq<char>, Seq<Seq<char>>) {
    ("chmod"@, seq!["-Rv"@, "755"@, location])
}

/// One registration per pair, in order.
pub open spec fn register_all(location: Seq<char>, pairs: Seq<(Seq<char>, Seq<char>)>) -> Seq<
    (Seq<char>, Seq<Seq<char>>),
> {
    pairs.map_values(|p: (Seq<char>, Seq<char>)| register_command(location, p))
}

/// One withdrawal per pair, in order.
pub open spec fn unregister_all(location: Seq<char>, pairs: Seq<(Seq<char>, Seq<char>)>) -> Seq<
    (Seq<char>, Seq<Seq<char>>),
> {
    pairs.map_values(|p: (Seq<char>, Seq<char>)| unregister_command(location, p))
}

/// The texts of a list of strings.
pub open spec fn texts_of(v: Seq<String>) -> Seq<Seq<char>> {
    v.map_values(|a: String| a@)
}

proof fn lemma_texts_push(v: Seq<String>, x: String)
    ensures
        texts_of(v.push(x)) == texts_of(v).push(x@),
{
    assert(texts_of(v.push(x)) =~= texts_of(v).push(x@));
}

proof fn lemma_commands_push(v: Seq<SystemCommand>, x: SystemCommand)
    ensures
        commands_view(v.push(x)) == commands_view(v).push(x@),
{
    assert(commands_view(v.push(x)) =~= commands_view(v).push(x@));
}

proof fn lemma_plans_step(location: Seq<char>, pairs: Seq<(Seq<char>, Seq<char>)>, i: int)
    requires
        0 <= i < pairs.len(),
    ensures
        register_all(location, pairs.subrange(0, i + 1)) == register_all(
            location,
            pairs.subrange(0, i),
        ).push(register_command(location, pairs[i])),
        unregister_all(location, pairs.subrange(0, i + 1)) == unregister_all(
            location,
            pairs.subrange(0, i),
        ).push(unregister_command(location, pairs[i])),
{
    assert(register_all(location, pairs.subrange(0, i + 1)) =~= register_all(
        location,
        pairs.subrange(0, i),
    ).push(register_command(location, pairs[i])));
    assert(unregister_all(location, pairs.subrange(0, i + 1)) =~= unregister_all(
        location,
        pairs.subrange(0, i),
    ).push(unregister_command(location, pairs[i])));
}

proof fn lemma_pairs_step(paths: Seq<UpdateAlternativePath>, i: int)
    requires
        0 <= i < paths.len(),
    ensures
        pairs_of(paths)[i] == paths[i]@,
        pairs_of(paths).len() == paths.len(),
{
}

/// The commands that wire an install in: for an image type the method
/// wires in, the permissions command, then one registration per pair in order;
/// for any other image type, none.
pub open spec fn apply_plan(method: InstallMethod, image_type: ImageType, location: Seq<char>) -> Seq<
    (Seq<char>, Seq<Seq<char>>),
> {
    match pairs_for(method, image_type) {
        Some(pairs) => seq![permissions_command(location)] + register_all(location, pairs),
        None => Seq::empty(),
    }
}

/// The commands that undo the wiring: one withdrawal per pair in order;
/// none for an image type the method does not wire in.
pub open spec fn remove_plan(method: InstallMethod, image_type: ImageType, location: Seq<char>) -> Seq<
    (Seq<char>, Seq<Seq<char>>),
> {
    match pairs_for(method, image_type) {
        Some(pairs) => unregister_all(location, pairs),
        None => Seq::empty(),
    }
}

fn strings(parts: Vec<&str>) -> (r: Vec<String>)
    ensures
        texts_of(r@) == parts@.map_values(|p: &str| p@),
{
    let mut r: Vec<String> = Vec::new();
    let mut i: usize = 0;
    while i < parts.len()
        invariant
            i <= parts@.len(),
            texts_of(r@) == parts@.subrange(0, i as int).map_values(|p: &str| p@),
        decreases parts@.len() - i,
    {
        let ghost before = r@;
        let x = String::from_str(parts[i]);
        r.push(x);
        proof {
            lemma_texts_push(before, x);
            assert(parts@.subrange(0, i + 1).map_values(|p: &str| p@) =~= parts@.subrange(
                0,
                i as int,
            ).map_values(|p: &str| p@).push(parts@[i as int]@));
        }
        i = i + 1;
    }
    assert(parts@.subrange(0, i as int) =~= parts@);
    r
}

fn binary_of(location: &str, exec: &str) -> (r: String)
    ensures
        r@ == binary_path(location@, exec@),
{
    let bin = join(location, "bin");
    join(bin.as_str(), exec)
}

fn register(location: &str, pair: &UpdateAlternativePath) -> (r: SystemCommand)
    ensures
        r@ == register_command(location@, pair@),
{
    let bin = binary_of(location, pair.exec_name.as_str());
    let args = strings(
        vec!["--install", pair.system_path.as_str(), pair.exec_name.as_str(), bin.as_str(), "1"],
    );
    let r = SystemCommand { program: String::from_str("update-alternatives"), args };
    assert(r@.1 =~= register_command(location@, pair@).1);
    r
}

fn unregister(location: &str, pair: &UpdateAlternativePath) -> (r: SystemCommand)
    ensures
        r@ == unregister_command(location@, pair@),
{
    let bin = binary_of(location, pair.exec_name.as_str());
    let args = strings(vec!["--remove", pair.exec_name.as_str(), bin.as_str()]);
    let r = SystemCommand { program: String::from_str("update-alternatives"), args };
    assert(r@.1 =~= unregister_command(location@, pair@).1);
    r
}

fn pairs_of_config<'a>(sys: &'a SysConfig, image_type: ImageType) -> (r: Option<
    &'a Vec<UpdateAlternativePath>,
>)
    ensures
        r matches Some(v) ==> pairs_for(sys.install_method, image_type) == Some(pairs_of(v@)),
        r is None ==> pairs_for(sys.install_method, image_type) is None,
{
    match &sys.install_method {
        InstallMethod::UpdateAlternatives(alt) => match image_type {
            ImageType::JDK => Some(&alt.jdk_paths),
            ImageType::JRE => Some(&alt.jre_paths),
            _ => None,
        },
    }
}

/// The commands that wire an install at `location` into the system.
pub fn update_system(sys: &SysConfig, image_type: ImageType, location: &str) -> (r: Vec<
    SystemCommand,
>)
    ensures
        commands_view(r@) == apply_plan(sys.install_method, image_type, location@),
        r@.len() == apply_plan(sys.install_method, image_type, location@).len(),
{
    let mut r: Vec<SystemCommand> = Vec::new();
    match pairs_of_config(sys, image_type) {
        None => {
            assert(commands_view(r@) =~= apply_plan(sys.install_method, image_type, location@));
            r
        },
        Some(paths) => {
            let chmod = SystemCommand {
                program: String::from_str("chmod"),
                args: strings(vec!["-Rv", "755", location]),
            };
            assert(chmod@.1 =~= permissions_command(location@).1);
            r.push(chmod);
            let ghost pairs = pairs_of(paths@);
            proof {
                lemma_commands_push(Seq::empty(), chmod);
                assert(Seq::<SystemCommand>::empty().push(chmod) =~= r@);
                assert(pairs.subrange(0, 0) =~= Seq::empty());
                assert(register_all(location@, pairs.subrange(0, 0)) =~= Seq::empty());
                assert(commands_view(r@) =~= seq![permissions_command(location@)] + register_all(
                    location@,
                    pairs.subrange(0, 0),
                ));
            }
            let mut i: usize = 0;
            while i < paths.len()
                invariant
                    i <= paths@.len(),
                    pairs == pairs_of(paths@),
                    commands_view(r@) == seq![permissions_command(location@)] + register_all(
                        location@,
                        pairs.subrange(0, i as int),
                    ),
                decreases paths@.len() - i,
            {
                let ghost before = r@;
                let c = register(location, &paths[i]);
                r.push(c);
                proof {
                    lemma_commands_push(before, c);
                    lemma_pairs_step(paths@, i as int);
                    lemma_plans_step(location@, pairs, i as int);
                    assert(commands_view(r@) =~= seq![permissions_command(location@)]
                        + register_all(location@, pairs.subrange(0, i + 1)));
                }
                i = i + 1;
            }
            assert(pairs.subrange(0, i as int) =~= pairs);
            assert(commands_view(r@) =~= apply_plan(sys.install_method, image_type, location@));
            r
        },
    }
}

/// The commands that withdraw an install at `location` from the system.
pub fn remove_install(sys: &SysConfig, image_type: ImageType, location: &str) -> (r: Vec<
    SystemCommand,
>)
    ensures
        commands_view(r@) == remove_plan(sys.install_method, image_type, location@),
        r@.len() == remove_plan(sys.install_method, image_type, location@).len(),
{
    let mut r: Vec<SystemCommand> = Vec::new();
    match pairs_of_config(sys, image_type) {
        None => {
            assert(commands_view(r@) =~= remove_plan(sys.install_method, image_type, location@));
            r
        },
        Some(paths) => {
            let ghost pairs = pairs_of(paths@);
            assert(commands_view(r@) =~= unregister_all(location@, pairs.subrange(0, 0)));
            let mut i: usize = 0;
            while i < paths.len()
                invariant
                    i <= paths@.len(),
                    pairs == pairs_of(paths@),
                    commands_view(r@) == unregister_all(location@, pairs.subrange(0, i as int)),
                decreases paths@.len() - i,
            {
                let ghost before = r@;
                let c = unregister(location, &paths[i]);
                r.push(c);
                proof {
                    lemma_commands_push(before, c);
                    lemma_pairs_step(paths@, i as int);
                    lemma_plans_step(location@, pairs, i as int);
                }
                i = i + 1;
            }
            assert(pairs.subrange(0, i as int) =~= pairs);
            assert(commands_view(r@) =~= remove_plan(sys.install_method, image_type, location@));
            r
        },
    }
}

/// The positions, in increasing order, of the commands among the first `n`
/// whose exit code is not zero.
pub open spec fn failed_positions(codes: Seq<u8>, n: nat) -> Seq<usize>
    decreases n,
{
    if n == 0 {
        Seq::empty()
    } else if codes[n - 1] != 0 {
        failed_positions(codes, (n - 1) as nat).push((n - 1) as usize)
    } else {
        failed_positions(codes, (n - 1) as nat)
    }
}

/// The outcome of running a plan: a command that exits non-zero does not stop
/// the ones after it, and is listed here.
pub struct IntegrationReport {
    /// The positions in the plan of the commands that failed, in order.
    pub failed: Vec<usize>,
}

impl IntegrationReport {
    /// Gathers the exit codes of a plan's commands, one per command, in order.
    pub fn from_exit_codes(codes: &Vec<u8>) -> (r: IntegrationReport)
        ensures
            r.failed@ == failed_positions(codes@, codes@.len()),
    {
        let mut failed: Vec<usize> = Vec::new();
        let mut i: usize = 0;
        while i < codes.len()
            invariant
                i <= codes@.len(),
                failed@ == failed_positions(codes@, i as nat),
            decreases codes@.len() - i,
        {
            if codes[i] != 0 {
                failed.push(i);
            }
            i = i + 1;
        }
        IntegrationReport { failed }
    }

    /// Whether every command succeeded.
    pub fn all_succeeded(&self) -> (r: bool)
        ensures
            r == (self.failed@.len() == 0),
    {
        self.failed.len() == 0
    }
}

/// The adapter is scoped by image type: a runtime image gets the permissions
/// command and then registrations of the runtime pairs only, and its removal
/// withdraws exactly those; an image type that the method does not wire in
/// gets no command at all, on apply or on remove.
pub proof fn lemma_integration_scope(
    method: InstallMethod,
    image_type: ImageType,
    location: Seq<char>,
)
    ensures
        image_type == ImageType::JRE ==> (method matches InstallMethod::UpdateAlternatives(a)
            && apply_plan(method, image_type, location) == seq![permissions_command(location)]
            + register_all(location, pairs_of(a.jre_paths@)) && remove_plan(
            method,
            image_type,
            location,
        ) == unregister_all(location, pairs_of(a.jre_paths@))),
        image_type == ImageType::JRE ==> (method matches InstallMethod::UpdateAlternatives(a)
            && forall|i: int|
            1 <= i < apply_plan(method, image_type, location).len() ==> #[trigger] apply_plan(
                method,
                image_type,
                location,
            )[i] == register_command(location, pairs_of(a.jre_paths@)[i - 1])),
        image_type != ImageType::JDK && image_type != ImageType::JRE ==> apply_plan(
            method,
            image_type,
            location,
        ).len() == 0 && remove_plan(method, image_type, location).len() == 0,
{
}

} // verus!
