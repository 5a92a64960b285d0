use crate::error::LaunchError;
use crate::intent::texts;
use vstd::prelude::*;
use vstd::string::*;

verus! {

/// How many parents of the working directory the local-package search visits
/// after the working directory itself.
pub const PARENT_LEVELS: usize = 5;

/// The places an installation is looked for, in order of priority.
#[derive(Debug, Clone, Copy, PartialEq, Eq, Structural)]
pub enum Strategy {
    /// A project-local package under `node_modules`, in the working directory
    /// or one of its parents.
    LocalPackage,
    /// The standalone bundle beside the running executable.
    BesideExecutable,
    /// The standalone bundle under the working directory (a source checkout).
    WorkingTree,
}

/// How a located target is run.
#[derive(Debug, Clone, Copy, PartialEq, Eq, Structural)]
pub enum TargetKind {
    /// A script handed to the script runtime as its first argument.
    Script,
    /// A native binary started directly.
    Standalone,
}

impl Strategy {
    pub open spec fn spec_kind(self) -> TargetKind {
        match self {
            Strategy::LocalPackage => TargetKind::Script,
            _ => TargetKind::Standalone,
        }
    }

    /// How a target found by this strategy is run.
    pub fn kind(&self) -> (r: TargetKind)
        ensures
            r == self.spec_kind(),
    {
        match self {
            Strategy::LocalPackage => TargetKind::Script,
            _ => TargetKind::Standalone,
        }
    }
}

/// A filesystem path: its root (a drive prefix and root directory, or `/`),
/// then its ordinary components.
#[derive(Debug, PartialEq, Eq)]
pub struct FsPath {
    pub root: String,
    pub parts: Vec<String>,
}

impl View for FsPath {
    type V = (Seq<char>, Seq<Seq<char>>);

    open spec fn view(&self) -> (Seq<char>, Seq<Seq<char>>) {
        (self.root@, texts(self.parts@))
    }
}

/// A place where an installation may stand, and the strategy that names it.
#[derive(Debug, PartialEq, Eq)]
pub struct Candidate {
    pub strategy: Strategy,
    pub path: FsPath,
}

impl View for Candidate {
    type V = (Strategy, (Seq<char>, Seq<Seq<char>>));

    open spec fn view(&self) -> (Strategy, (Seq<char>, Seq<Seq<char>>)) {
        (self.strategy, self.path@)
    }
}

pub open spec fn path_model(p: Option<FsPath>) -> Option<(Seq<char>, Seq<Seq<char>>)> {
    match p {
        Some(q) => Some(q@),
        None => None,
    }
}

pub open spec fn models(v: Seq<Candidate>) -> Seq<(Strategy, (Seq<char>, Seq<Seq<char>>))> {
    v.map_values(|c: Candidate| c@)
}

/// `node_modules/@0xshariq/package-installer/dist/index.js`
pub open spec fn scoped_package_rel() -> Seq<Seq<char>> {
    seq!["node_modules"@, "@0xshariq"@, "package-installer"@, "dist"@, "index.js"@]
}

/// `node_modules/package-installer-cli/dist/index.js`
pub open spec fn cli_package_rel() -> Seq<Seq<char>> {
    seq!["node_modules"@, "package-installer-cli"@, "dist"@, "index.js"@]
}

/// `bundle-standalone/pi`
pub open spec fn bundle_rel() -> Seq<Seq<char>> {
    seq!["bundle-standalone"@, "pi"@]
}

/// How many directories the local search visits from `dir`: the directory
/// itself and five parents, or fewer when the root comes first.
pub open spec fn search_levels(dir: (Seq<char>, Seq<Seq<char>>)) -> int {
    if dir.1.len() < PARENT_LEVELS {
        dir.1.len() + 1 as int
    } else {
        PARENT_LEVELS + 1 as int
    }
}

/// The `i`-th local-package candidate from `dir`: two per level, the scoped
/// package before the unscoped one, the working directory's level first.
pub open spec fn local_candidate(dir: (Seq<char>, Seq<Seq<char>>), i: int) -> (
    Strategy,
    (Seq<char>, Seq<Seq<char>>),
) {
    (
        Strategy::LocalPackage,
        (
            dir.0,
            dir.1.take(dir.1.len() - i / 2) + if i % 2 == 0 {
                scoped_package_rel()
            } else {
                cli_package_rel()
            },
        ),
    )
}

pub open spec fn local_plan(cwd: Option<(Seq<char>, Seq<Seq<char>>)>) -> Seq<
    (Strategy, (Seq<char>, Seq<Seq<char>>)),
> {
    match cwd {
        Some(d) => Seq::new((2 * search_levels(d)) as nat, |i: int| local_candidate(d, i)),
        None => Seq::empty(),
    }
}

pub open spec fn bundle_plan(dir: Option<(Seq<char>, Seq<Seq<char>>)>, s: Strategy) -> Seq<
    (Strategy, (Seq<char>, Seq<Seq<char>>)),
> {
    match dir {
        Some(d) => seq![(s, (d.0, d.1 + bundle_rel()))],
        None => Seq::empty(),
    }
}

/// Every candidate, in priority order, for a working directory and the
/// directory of the running executable (either may be unknown).
pub open spec fn plan(
    cwd: Option<(Seq<char>, Seq<Seq<char>>)>,
    exe_dir: Option<(Seq<char>, Seq<Seq<char>>)>,
) -> Seq<(Strategy, (Seq<char>, Seq<Seq<char>>))> {
    local_plan(cwd) + bundle_plan(exe_dir, Strategy::BesideExecutable) + bundle_plan(
        cwd,
        Strategy::WorkingTree,
    )
}

fn append_prefix(v: &Vec<String>, keep: usize, out: &mut Vec<String>)
    requires
        keep <= v.len(),
    ensures
        final(out)@ == old(out)@ + v@.take(keep as int),
{
    let ghost start = out@;
    let mut i: usize = 0;
    while i < keep
        invariant
            keep <= v.len(),
            i <= keep,
            out@ =~= start + v@.take(i as int),
        decreases keep - i,
    {
        out.push(v[i].clone());
        i = i + 1;
    }
}

/// The path `rel` below the ancestor of `base` that lies `depth` levels up.
fn path_under(base: &FsPath, depth: usize, rel: &Vec<String>) -> (r: FsPath)
    requires
        depth <= base.parts.len(),
    ensures
        r@ == (base@.0, base@.1.take(base@.1.len() - depth) + texts(rel@)),
{
    let mut parts: Vec<String> = Vec::new();
    append_prefix(&base.parts, base.parts.len() - depth, &mut parts);
    append_prefix(rel, rel.len(), &mut parts);
    let r = FsPath { root: base.root.clone(), parts };
    assert(r@.1 =~= base@.1.take(base@.1.len() - depth) + texts(rel@));
    r
}

fn scoped_package_parts() -> (r: Vec<String>)
    ensures
        texts(r@) == scoped_package_rel(),
{
    let r = vec![
        String::from_str("node_modules"),
        String::from_str("@0xshariq"),
        String::from_str("package-installer"),
        String::from_str("dist"),
        String::from_str("index.js"),
    ];
    assert(texts(r@) =~= scoped_package_rel());
    r
}

fn cli_package_parts() -> (r: Vec<String>)
    ensures
        texts(r@) == cli_package_rel(),
{
    let r = vec![
        String::from_str("node_modules"),
        String::from_str("package-installer-cli"),
        String::from_str("dist"),
        String::from_str("index.js"),
    ];
    assert(texts(r@) =~= cli_package_rel());
    r
}

fn bundle_parts() -> (r: Vec<String>)
    ensures
        texts(r@) == bundle_rel(),
{
    let r = vec![String::from_str("bundle-standalone"), String::from_str("pi")];
    assert(texts(r@) =~= bundle_rel());
    r
}

/// Lists every place an installation may stand, in priority order: the local
/// packages from the working directory up through its parents, then the
/// bundle beside the executable, then the bundle under the working directory.
pub fn candidate_plan(cwd: &Option<FsPath>, exe_dir: &Option<FsPath>) -> (r: Vec<Candidate>)
    ensures
        models(r@) == plan(path_model(*cwd), path_model(*exe_dir)),
{
    let mut r: Vec<Candidate> = Vec::new();
    let bundle = bundle_parts();
    if let Some(d) = cwd {
        let scoped = scoped_package_parts();
        let cli = cli_package_parts();
        let n = d.parts.len();
        let levels: usize = if n < PARENT_LEVELS {
            n + 1
        } else {
            PARENT_LEVELS + 1
        };
        let mut k: usize = 0;
        while k < levels
            invariant
                levels == search_levels(d@),
                levels <= d.parts.len() + 1,
                k <= levels,
                texts(scoped@) == scoped_package_rel(),
                texts(cli@) == cli_package_rel(),
                models(r@) =~= Seq::new((2 * k) as nat, |i: int| local_candidate(d@, i)),
            decreases levels - k,
        {
            let ghost prev = models(r@);
            let a = path_under(d, k, &scoped);
            let b = path_under(d, k, &cli);
            proof {
                let e = 2 * k as int;
                assert(e / 2 == k && e % 2 == 0 && (e + 1) / 2 == k && (e + 1) % 2 == 1);
                assert(local_candidate(d@, e) == (Strategy::LocalPackage, a@));
                assert(local_candidate(d@, e + 1) == (Strategy::LocalPackage, b@));
            }
            r.push(Candidate { strategy: Strategy::LocalPackage, path: a });
            r.push(Candidate { strategy: Strategy::LocalPackage, path: b });
            assert(models(r@) =~= prev.push(local_candidate(d@, 2 * k as int)).push(
                local_candidate(d@, 2 * k + 1),
            ));
            assert(models(r@) =~= Seq::new((2 * (k + 1)) as nat, |i: int| local_candidate(d@, i)));
            k = k + 1;
        }
    }
    assert(models(r@) =~= local_plan(path_model(*cwd)));
    let ghost locals = models(r@);
    if let Some(e) = exe_dir {
        let p = path_under(e, 0, &bundle);
        assert(e@.1.take(e@.1.len() - 0) =~= e@.1);
        r.push(Candidate { strategy: Strategy::BesideExecutable, path: p });
    }
    assert(models(r@) =~= locals + bundle_plan(path_model(*exe_dir), Strategy::BesideExecutable));
    let ghost so_far = models(r@);
    if let Some(d) = cwd {
        let p = path_under(d, 0, &bundle);
        assert(d@.1.take(d@.1.len() - 0) =~= d@.1);
        r.push(Candidate { strategy: Strategy::WorkingTree, path: p });
    }
    assert(models(r@) =~= so_far + bundle_plan(path_model(*cwd), Strategy::WorkingTree));
    r
}

/// A located target together with the arguments it is to receive.
///
/// A `Script` target is run as the script runtime with the target's path as
/// its first argument, followed by `args`; a `Standalone` target is run
/// directly with `args`.
#[derive(Debug, PartialEq, Eq)]
pub struct LaunchCommand {
    pub target: Candidate,
    pub args: Vec<String>,
}

/// The script runtime looked up on the search path to run a `Script` target.
pub fn runtime_program() -> (r: String)
    ensures
        r@ == "node"@,
{
    String::from_str("node")
}

/// `i` is the first position at which `present` holds.
pub open spec fn is_first_present(present: Seq<bool>, i: int) -> bool {
    0 <= i < present.len() && present[i] && forall|j: int| 0 <= j < i ==> !present[j]
}

fn copy_path(p: &FsPath) -> (r: FsPath)
    ensures
        r@ == p@,
{
    let mut parts: Vec<String> = Vec::new();
    append_prefix(&p.parts, p.parts.len(), &mut parts);
    assert(parts@ =~= p.parts@);
    FsPath { root: p.root.clone(), parts }
}

/// Picks the first candidate of `plan` whose existence check succeeded
/// (`present[i]` tells whether `plan[i]` exists) and pairs it with the
/// arguments to hand over; fails with `NotFound` when none exists.
pub fn run_bundled_cli(plan: &Vec<Candidate>, present: &Vec<bool>, cli_args: &Vec<String>) -> (r:
    Result<LaunchCommand, LaunchError>)
    requires
        plan.len() == present.len(),
    ensures
        r is Err <==> forall|i: int| 0 <= i < present@.len() ==> !present@[i],
        r is Err ==> r == Err::<LaunchCommand, LaunchError>(LaunchError::NotFound),
        r is Ok ==> exists|i: int|
            #[trigger] is_first_present(present@, i) && r->Ok_0.target@ == plan@[i]@,
        r is Ok ==> r->Ok_0.args@ == cli_args@,
{
    let mut i: usize = 0;
    while i < plan.len()
        invariant
            plan.len() == present.len(),
            i <= plan.len(),
            forall|j: int| 0 <= j < i ==> !present@[j],
        decreases plan.len() - i,
    {
        if present[i] {
            let target = Candidate { strategy: plan[i].strategy, path: copy_path(&plan[i].path) };
            let mut args: Vec<String> = Vec::new();
            append_prefix(cli_args, cli_args.len(), &mut args);
            assert(args@ =~= cli_args@);
            assert(is_first_present(present@, i as int));
            return Ok(LaunchCommand { target, args });
        }
        i = i + 1;
    }
    Err(LaunchError::NotFound)
}

/// When any local package exists, a local package is chosen, whatever the
/// bundles beside the executable or in the working tree hold.
pub proof fn lemma_local_install_wins(
    cwd: Option<(Seq<char>, Seq<Seq<char>>)>,
    exe_dir: Option<(Seq<char>, Seq<Seq<char>>)>,
    present: Seq<bool>,
    k: int,
    chosen: int,
)
    requires
        present.len() == plan(cwd, exe_dir).len(),
        0 <= k < local_plan(cwd).len(),
        present[k],
        is_first_present(present, chosen),
    ensures
        chosen <= k,
        plan(cwd, exe_dir)[chosen].0 == Strategy::LocalPackage,
        plan(cwd, exe_dir)[chosen].0.spec_kind() == TargetKind::Script,
{
    let p = plan(cwd, exe_dir);
    assert(p[chosen] == local_plan(cwd)[chosen]);
}

/// `path` is one of the two package paths below the ancestor of `dir` that
/// lies `up` levels above it.
pub open spec fn package_path_above(
    dir: (Seq<char>, Seq<Seq<char>>),
    up: int,
    path: (Seq<char>, Seq<Seq<char>>),
) -> bool {
    &&& 0 <= up <= dir.1.len()
    &&& path == (dir.0, dir.1.take(dir.1.len() - up) + scoped_package_rel()) || path == (
        dir.0,
        dir.1.take(dir.1.len() - up) + cli_package_rel(),
    )
}

/// The local search looks no further than five parents above the working
/// directory: every local candidate is one of the two package paths below an
/// ancestor at most `PARENT_LEVELS` levels up.
pub proof fn lemma_search_is_bounded(
    cwd: (Seq<char>, Seq<Seq<char>>),
    exe_dir: Option<(Seq<char>, Seq<Seq<char>>)>,
    i: int,
)
    requires
        0 <= i < plan(Some(cwd), exe_dir).len(),
        plan(Some(cwd), exe_dir)[i].0 == Strategy::LocalPackage,
    ensures
        exists|up: int|
            0 <= up <= PARENT_LEVELS && #[trigger] package_path_above(
                cwd,
                up,
                plan(Some(cwd), exe_dir)[i].1,
            ),
{
    let locals = local_plan(Some(cwd));
    let p = plan(Some(cwd), exe_dir);
    if i >= locals.len() {
        let rest = bundle_plan(exe_dir, Strategy::BesideExecutable) + bundle_plan(
            Some(cwd),
            Strategy::WorkingTree,
        );
        assert(p[i] == rest[i - locals.len()]);
        assert(false);
    }
    assert(p[i] == locals[i]);
    let up = i / 2;
    assert(0 <= up <= PARENT_LEVELS && package_path_above(cwd, up, p[i].1));
}

/// With the bundle beside the executable present and no local package
/// present, that bundle is chosen, and it is run directly as a native binary.
pub proof fn lemma_bundle_beside_executable_used(
    cwd: Option<(Seq<char>, Seq<Seq<char>>)>,
    exe_dir: (Seq<char>, Seq<Seq<char>>),
    present: Seq<bool>,
    chosen: int,
)
    requires
        present.len() == plan(cwd, Some(exe_dir)).len(),
        forall|j: int| 0 <= j < local_plan(cwd).len() ==> !present[j],
        present[local_plan(cwd).len() as int],
        is_first_present(present, chosen),
    ensures
        chosen == local_plan(cwd).len(),
        plan(cwd, Some(exe_dir))[chosen] == (
            Strategy::BesideExecutable,
            (exe_dir.0, exe_dir.1 + bundle_rel()),
        ),
        plan(cwd, Some(exe_dir))[chosen].0.spec_kind() == TargetKind::Standalone,
{
    let n = local_plan(cwd).len() as int;
    assert(!(chosen > n));
    assert(!(chosen < n));
    assert(plan(cwd, Some(exe_dir))[n] == bundle_plan(Some(exe_dir), Strategy::BesideExecutable)[0]);
}

} // verus!
