//! Where the worker script is looked for, and the command line that runs it.
use vstd::prelude::*;
use vstd::string::*;

verus! {

/// A path as a root (such as `/` or a drive) and the names below it.
#[derive(Clone, Debug)]
pub struct FsPath {
    pub root: String,
    pub parts: Vec<String>,
}

/// The names below the root, as character sequences.
pub open spec fn names(v: Seq<String>) -> Seq<Seq<char>> {
    v.map_values(|s: String| s@)
}

impl View for FsPath {
    type V = (Seq<char>, Seq<Seq<char>>);

    open spec fn view(&self) -> (Seq<char>, Seq<Seq<char>>) {
        (self.root@, names(self.parts@))
    }
}

/// One argument of the worker's command line.
#[derive(Clone, Debug)]
pub enum Arg {
    Word(String),
    File(FsPath),
}

pub enum ArgView {
    Word(Seq<char>),
    File((Seq<char>, Seq<Seq<char>>)),
}

impl View for Arg {
    type V = ArgView;

    open spec fn view(&self) -> ArgView {
        match self {
            Arg::Word(w) => ArgView::Word(w@),
            Arg::File(p) => ArgView::File(p@),
        }
    }
}

/// The program that runs the worker script: one found on the search path,
/// or one at a given place.
#[derive(Clone, Debug)]
pub enum Program {
    Named(String),
    File(FsPath),
}

pub enum ProgramView {
    Named(Seq<char>),
    File((Seq<char>, Seq<Seq<char>>)),
}

impl View for Program {
    type V = ProgramView;

    open spec fn view(&self) -> ProgramView {
        match self {
            Program::Named(w) => ProgramView::Named(w@),
            Program::File(p) => ProgramView::File(p@),
        }
    }
}

/// A complete command line, with the directory to run it in, if any.
#[derive(Clone, Debug)]
pub struct LaunchCommand {
    pub program: Program,
    pub args: Vec<Arg>,
    pub current_dir: Option<FsPath>,
}

pub struct LaunchView {
    pub program: ProgramView,
    pub args: Seq<ArgView>,
    pub current_dir: Option<(Seq<char>, Seq<Seq<char>>)>,
}

pub open spec fn arg_views(v: Seq<Arg>) -> Seq<ArgView> {
    v.map_values(|a: Arg| a@)
}

impl View for LaunchCommand {
    type V = LaunchView;

    open spec fn view(&self) -> LaunchView {
        LaunchView {
            program: self.program@,
            args: arg_views(self.args@),
            current_dir: match self.current_dir {
                Some(d) => Some(d@),
                None => None,
            },
        }
    }
}

/// The worker script that an executor type runs.
pub open spec fn script_for(executor_type: Seq<char>) -> Seq<char> {
    if executor_type == "minimal"@ {
        "minimal_bridge.py"@
    } else if executor_type == "real"@ {
        "qontinui_executor.py"@
    } else {
        "qontinui_bridge.py"@
    }
}

/// Whether the script needs the project environment (the automation
/// library), which every script but the minimal one does.
pub open spec fn needs_project(executor_type: Seq<char>) -> bool {
    executor_type != "minimal"@
}

/// Whether the command line carries the mock flag: always, but for the
/// `real` executor type.
pub open spec fn runs_mocked(executor_type: Seq<char>) -> bool {
    executor_type != "real"@
}

/// The place a build directory suggests: a `debug` or `release` directory
/// three levels below the project, or the `src-tauri` directory one level
/// below it.
pub open spec fn build_dir_candidate(cwd: Seq<Seq<char>>, script: Seq<char>) -> Option<Seq<Seq<char>>> {
    if cwd.len() > 0 && (cwd.last() == "debug"@ || cwd.last() == "release"@) {
        if cwd.len() >= 3 {
            Some(cwd.take(cwd.len() - 3) + seq!["python-bridge"@, script])
        } else {
            None
        }
    } else if cwd.len() > 0 && cwd.last() == "src-tauri"@ {
        Some(cwd.drop_last() + seq!["python-bridge"@, script])
    } else {
        None
    }
}

/// The places to look for the script, in order, below the root of the
/// working directory.
pub open spec fn candidate_names(cwd: Seq<Seq<char>>, script: Seq<char>) -> Seq<Seq<Seq<char>>> {
    let rest = seq![
        cwd + seq!["python-bridge"@, script],
        cwd + seq![".."@, "python-bridge"@, script],
    ];
    match build_dir_candidate(cwd, script) {
        Some(c) => seq![c] + rest,
        None => rest,
    }
}

/// Whether entry `i` of a probe says that the place exists; entries that
/// the probe lacks say no.
pub open spec fn found(exists: Seq<bool>, i: int) -> bool {
    0 <= i < exists.len() && exists[i]
}

/// The project directory that holds the automation library, three levels
/// above the script.
pub open spec fn project_dir_of(script: Seq<Seq<char>>) -> Option<Seq<Seq<char>>> {
    if script.len() >= 3 {
        Some(script.take(script.len() - 3) + seq!["qontinui"@])
    } else {
        None
    }
}

/// The virtual environment's interpreter beside the script.
pub open spec fn venv_of(script: Seq<Seq<char>>) -> Option<Seq<Seq<char>>> {
    if script.len() >= 1 {
        Some(script.drop_last() + seq!["venv"@, "Scripts"@, "python.exe"@])
    } else {
        None
    }
}

/// The arguments after the interpreter: the leading ones, the script, and
/// the mock flag unless the executor type is `real`.
pub open spec fn args_for(lead: Seq<ArgView>, script: (Seq<char>, Seq<Seq<char>>), executor_type: Seq<char>) -> Seq<ArgView> {
    let base = lead.push(ArgView::File(script));
    if runs_mocked(executor_type) {
        base.push(ArgView::Word("--mock"@))
    } else {
        base
    }
}

/// The command that runs the script: the project environment's manager when
/// the script needs it and its manifest exists, else the virtual
/// environment's interpreter when it exists, else the system interpreter.
pub open spec fn launch_view(
    executor_type: Seq<char>,
    script: (Seq<char>, Seq<Seq<char>>),
    manifest_exists: bool,
    venv_exists: bool,
    windows: bool,
) -> LaunchView {
    if needs_project(executor_type) && manifest_exists && project_dir_of(script.1) is Some {
        LaunchView {
            program: ProgramView::Named("poetry"@),
            args: args_for(seq![ArgView::Word("run"@), ArgView::Word("python"@)], script, executor_type),
            current_dir: Some((script.0, project_dir_of(script.1)->0)),
        }
    } else if venv_exists && venv_of(script.1) is Some {
        LaunchView {
            program: ProgramView::File((script.0, venv_of(script.1)->0)),
            args: args_for(seq![], script, executor_type),
            current_dir: None,
        }
    } else {
        LaunchView {
            program: ProgramView::Named(if windows { "python"@ } else { "python3"@ }),
            args: args_for(seq![], script, executor_type),
            current_dir: None,
        }
    }
}

proof fn lemma_names_push(v: Seq<String>, x: String)
    ensures
        names(v.push(x)) == names(v).push(x@),
{
    assert(names(v.push(x)) =~= names(v).push(x@));
}

fn is_named(s: &String, name: &str) -> (r: bool)
    ensures
        r == (s@ == name@),
{
    let n = String::from_str(name);
    *s == n
}

/// The first `n` names of a path, under the same root.
fn ancestor(p: &FsPath, n: usize) -> (r: FsPath)
    requires
        n <= p.parts.len(),
    ensures
        r@ == (p.root@, names(p.parts@).take(n as int)),
{
    let mut parts: Vec<String> = Vec::new();
    let mut i: usize = 0;
    while i < n
        invariant
            i <= n <= p.parts.len(),
            names(parts@) =~= names(p.parts@).take(i as int),
        decreases n - i,
    {
        let ghost prev = parts@;
        parts.push(p.parts[i].clone());
        proof {
            lemma_names_push(prev, p.parts@[i as int]);
        }
        i = i + 1;
        assert(names(parts@) =~= names(p.parts@).take(i as int));
    }
    FsPath { root: p.root.clone(), parts }
}

/// A path with more names below it.
fn below(p: FsPath, more: &Vec<&str>) -> (r: FsPath)
    ensures
        r@.0 == p@.0,
        r@.1 == p@.1 + more@.map_values(|s: &str| s@),
{
    let FsPath { root, parts } = p;
    let mut parts = parts;
    let ghost start = names(parts@);
    let mut i: usize = 0;
    while i < more.len()
        invariant
            i <= more.len(),
            names(parts@) =~= start + more@.map_values(|s: &str| s@).take(i as int),
        decreases more.len() - i,
    {
        let ghost prev = parts@;
        let w = String::from_str(more[i]);
        parts.push(w);
        proof {
            lemma_names_push(prev, w);
        }
        i = i + 1;
        assert(names(parts@) =~= start + more@.map_values(|s: &str| s@).take(i as int));
    }
    assert(more@.map_values(|s: &str| s@).take(more.len() as int) =~= more@.map_values(|s: &str| s@));
    FsPath { root, parts }
}

/// The worker script that an executor type runs.
pub fn script_name(executor_type: &str) -> (r: String)
    ensures
        r@ == script_for(executor_type@),
{
    let t = String::from_str(executor_type);
    if is_named(&t, "minimal") {
        String::from_str("minimal_bridge.py")
    } else if is_named(&t, "real") {
        String::from_str("qontinui_executor.py")
    } else {
        String::from_str("qontinui_bridge.py")
    }
}

/// The places to look for the script, in the order they are tried, given
/// the working directory.
pub fn script_candidates(cwd: &FsPath, script: &str) -> (r: Vec<FsPath>)
    ensures
        r@.len() == candidate_names(cwd@.1, script@).len(),
        forall|i: int|
            0 <= i < r@.len() ==> #[trigger] r@[i]@ == (cwd@.0, candidate_names(cwd@.1, script@)[i]),
{
    let ghost c = cwd@.1;
    let ghost s = script@;
    let mut out: Vec<FsPath> = Vec::new();
    let n = cwd.parts.len();
    let in_build = n > 0 && (is_named(&cwd.parts[n - 1], "debug") || is_named(&cwd.parts[n - 1], "release"));
    if in_build {
        if n >= 3 {
            let p = below(ancestor(cwd, n - 3), &vec!["python-bridge", script]);
            out.push(p);
        }
    } else if n > 0 && is_named(&cwd.parts[n - 1], "src-tauri") {
        let p = below(ancestor(cwd, n - 1), &vec!["python-bridge", script]);
        out.push(p);
    }
    assert(in_build == (c.len() > 0 && (c.last() == "debug"@ || c.last() == "release"@)));
    let ghost first = out@;
    let here = below(ancestor(cwd, n), &vec!["python-bridge", script]);
    out.push(here);
    let up = below(ancestor(cwd, n), &vec!["..", "python-bridge", script]);
    out.push(up);
    assert(c.take(n as int) =~= c);
    assert(c.drop_last() =~= c.take(n - 1));
    out
}

/// The first place that the probe found, by its index; none found means
/// that the script is missing.
pub fn first_found(candidates: &Vec<FsPath>, exists: &Vec<bool>) -> (r: Option<usize>)
    ensures
        r is Some <==> exists|i: int| 0 <= i < candidates@.len() && found(exists@, i),
        r matches Some(i) ==> i < candidates@.len() && found(exists@, i as int) && forall|j: int|
            0 <= j < i ==> !found(exists@, j),
{
    let mut i: usize = 0;
    while i < candidates.len()
        invariant
            i <= candidates@.len(),
            forall|j: int| 0 <= j < i ==> !found(exists@, j),
        decreases candidates@.len() - i,
    {
        if i < exists.len() && exists[i] {
            assert(found(exists@, i as int));
            return Some(i);
        }
        i = i + 1;
    }
    None
}

/// The manifest of the project environment, three levels above the script,
/// if the script lies deep enough.
pub fn project_manifest(script: &FsPath) -> (r: Option<FsPath>)
    ensures
        r is Some <==> project_dir_of(script@.1) is Some,
        r matches Some(m) ==> m@ == (script@.0, project_dir_of(script@.1)->0.push("pyproject.toml"@)),
{
    let n = script.parts.len();
    if n >= 3 {
        let m = below(ancestor(script, n - 3), &vec!["qontinui", "pyproject.toml"]);
        assert(project_dir_of(script@.1)->0.push("pyproject.toml"@) =~= m@.1);
        Some(m)
    } else {
        None
    }
}

/// The virtual environment's interpreter beside the script.
pub fn venv_interpreter(script: &FsPath) -> (r: Option<FsPath>)
    ensures
        r is Some <==> venv_of(script@.1) is Some,
        r matches Some(m) ==> m@ == (script@.0, venv_of(script@.1)->0),
{
    let n = script.parts.len();
    if n >= 1 {
        let m = below(ancestor(script, n - 1), &vec!["venv", "Scripts", "python.exe"]);
        assert(names(script.parts@).take(n - 1) =~= names(script.parts@).drop_last());
        Some(m)
    } else {
        None
    }
}

fn script_args(lead: Vec<Arg>, script: &FsPath, executor_type: &str) -> (r: Vec<Arg>)
    ensures
        arg_views(r@) == args_for(arg_views(lead@), script@, executor_type@),
{
    let mut args = lead;
    let ghost before = arg_views(args@);
    let s = FsPath { root: script.root.clone(), parts: script.parts.clone() };
    assert(s@ =~= script@);
    args.push(Arg::File(s));
    assert(arg_views(args@) =~= before.push(ArgView::File(script@)));
    let t = String::from_str(executor_type);
    if !is_named(&t, "real") {
        let ghost mid = arg_views(args@);
        args.push(Arg::Word(String::from_str("--mock")));
        assert(arg_views(args@) =~= mid.push(ArgView::Word("--mock"@)));
    }
    args
}

/// The command that runs the script, given what the probes found: whether
/// the project environment's manifest exists, whether the virtual
/// environment's interpreter exists, and whether this is Windows.
pub fn launch_command(
    executor_type: &str,
    script: &FsPath,
    manifest_exists: bool,
    venv_exists: bool,
    windows: bool,
) -> (r: LaunchCommand)
    ensures
        r@ == launch_view(executor_type@, script@, manifest_exists, venv_exists, windows),
{
    let t = String::from_str(executor_type);
    let n = script.parts.len();
    if !is_named(&t, "minimal") && manifest_exists && n >= 3 {
        let more = vec!["qontinui"];
        assert(more@.map_values(|s: &str| s@) =~= seq!["qontinui"@]);
        let dir = below(ancestor(script, n - 3), &more);
        let lead = vec![Arg::Word(String::from_str("run")), Arg::Word(String::from_str("python"))];
        assert(arg_views(lead@) =~= seq![ArgView::Word("run"@), ArgView::Word("python"@)]);
        let args = script_args(lead, script, executor_type);
        LaunchCommand { program: Program::Named(String::from_str("poetry")), args, current_dir: Some(dir) }
    } else if venv_exists && n >= 1 {
        let more = vec!["venv", "Scripts", "python.exe"];
        assert(more@.map_values(|s: &str| s@) =~= seq!["venv"@, "Scripts"@, "python.exe"@]);
        let venv = below(ancestor(script, n - 1), &more);
        assert(names(script.parts@).take(n - 1) =~= names(script.parts@).drop_last());
        let lead: Vec<Arg> = Vec::new();
        assert(arg_views(lead@) =~= Seq::<ArgView>::empty());
        let args = script_args(lead, script, executor_type);
        LaunchCommand { program: Program::File(venv), args, current_dir: None }
    } else {
        let lead: Vec<Arg> = Vec::new();
        assert(arg_views(lead@) =~= Seq::<ArgView>::empty());
        let args = script_args(lead, script, executor_type);
        let name = if windows {
            String::from_str("python")
        } else {
            String::from_str("python3")
        };
        LaunchCommand { program: Program::Named(name), args, current_dir: None }
    }
}

} // verus!
