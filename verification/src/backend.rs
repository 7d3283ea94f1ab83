//! Backend supervisor logic: deriving the backend's working directory
//! from the launcher's own location and building the platform-specific
//! spawn command. The spawn itself and the grace-period wait are I/O and
//! live in the binary around the library.

use vstd::prelude::*;

verus! {

/// Seconds the launcher waits after spawning the backend before the UI
/// proceeds: a fixed grace period, not a readiness handshake.
pub const STARTUP_GRACE_SECS: u64 = 3;

/// The platform family that selects the shell-invocation strategy.
#[derive(Clone, Copy, PartialEq, Eq, Structural, Debug)]
pub enum Platform {
    Unix,
    Windows,
}

/// An absolute directory path, held as its components in root-to-leaf
/// order. `/a/b/backend` is `["a", "b", "backend"]`; the filesystem root
/// is the empty sequence.
#[derive(PartialEq, Eq, Debug)]
pub struct DirPath {
    pub components: Vec<String>,
}

impl View for DirPath {
    type V = Seq<Seq<char>>;

    open spec fn view(&self) -> Seq<Seq<char>> {
        self.components.deep_view()
    }
}

/// The backend directory that a launcher working directory derives:
/// ascend two levels, then descend into `backend`.
pub open spec fn backend_dir_of(cwd: Seq<Seq<char>>) -> Seq<Seq<char>>
    recommends
        cwd.len() >= 2,
{
    cwd.take(cwd.len() - 2).push("backend"@)
}

/// Derives the backend's directory from the launcher's working
/// directory: two parent steps, then the fixed `backend` subdirectory.
///
/// Returns `None` exactly when the working directory has fewer than two
/// ancestor levels; the caller treats that as a non-recoverable layout
/// error rather than substituting a default.
pub fn backend_dir(cwd: &DirPath) -> (r: Option<DirPath>)
    ensures
        r is Some <==> cwd@.len() >= 2,
        r is Some ==> r->Some_0@ == backend_dir_of(cwd@),
{
    let n = cwd.components.len();
    if n < 2 {
        return None;
    }
    let mut out: Vec<String> = Vec::new();
    let mut i: usize = 0;
    while i < n - 2
        invariant
            n == cwd.components@.len(),
            2 <= n,
            i <= n - 2,
            out@.len() == i,
            forall|j: int| 0 <= j < i ==> out@[j]@ == #[trigger] cwd.components@[j]@,
        decreases n - 2 - i,
    {
        out.push(cwd.components[i].clone());
        i += 1;
    }
    out.push("backend".to_owned());
    let r = DirPath { components: out };
    proof {
        assert(r@ =~= backend_dir_of(cwd@));
    }
    Some(r)
}

/// The text of an absolute path: a `/` before each component.
/// The empty path renders as the empty string (the launcher never
/// renders the bare root).
pub open spec fn path_text(cs: Seq<Seq<char>>) -> Seq<char>
    decreases cs.len(),
{
    if cs.len() == 0 {
        Seq::empty()
    } else {
        path_text(cs.drop_last()) + seq!['/'] + cs.last()
    }
}

/// Renders a directory path as absolute-path text, `/a/b/backend`.
pub fn render_path(p: &DirPath) -> (r: String)
    ensures
        r@ == path_text(p@),
{
    let n = p.components.len();
    let mut s = String::new();
    let mut i: usize = 0;
    proof {
        reveal_strlit("/");
        assert(p@.take(0) =~= Seq::<Seq<char>>::empty());
    }
    while i < n
        invariant
            n == p.components@.len(),
            i <= n,
            s@ == path_text(p@.take(i as int)),
        decreases n - i,
    {
        s.append("/");
        s.append(p.components[i].as_str());
        i += 1;
        proof {
            reveal_strlit("/");
            let t = p@.take(i as int);
            assert(t.drop_last() =~= p@.take(i - 1));
            assert(t.last() == p.components@[i - 1]@);
        }
    }
    proof {
        assert(p@.take(n as int) =~= p@);
    }
    s
}

/// A fully resolved spawn request: the interpreter to start, its
/// single-argument flag, and the command line handed to it.
#[derive(PartialEq, Eq, Debug)]
pub struct SpawnCommand {
    pub program: String,
    pub flag: String,
    pub command_line: String,
}

/// The command line that starts the backend from `dir` on Unix-like
/// systems: change directory, activate the virtual environment, run the
/// entry point.
pub open spec fn unix_command_line(dir: Seq<Seq<char>>) -> Seq<char> {
    "cd "@ + path_text(dir) + " && source venv-test/bin/activate && python main.py"@
}

/// The equivalent command line for the Windows command interpreter.
pub open spec fn windows_command_line(dir: Seq<Seq<char>>) -> Seq<char> {
    "cd "@ + path_text(dir) + " && venv-test\\Scripts\\activate && python main.py"@
}

/// Builds the platform-appropriate backend spawn command. The two
/// branches differ only in shell syntax: both change into the backend
/// directory, activate the virtual environment, and run `python main.py`.
pub fn backend_command(platform: Platform, backend_dir: &DirPath) -> (r: SpawnCommand)
    ensures
        platform is Unix ==> r.program@ == "bash"@ && r.flag@ == "-c"@ && r.command_line@
            == unix_command_line(backend_dir@),
        platform is Windows ==> r.program@ == "cmd"@ && r.flag@ == "/C"@ && r.command_line@
            == windows_command_line(backend_dir@),
{
    let dir_text = render_path(backend_dir);
    let mut line = "cd ".to_owned();
    line.append(dir_text.as_str());
    match platform {
        Platform::Unix => {
            line.append(" && source venv-test/bin/activate && python main.py");
            SpawnCommand { program: "bash".to_owned(), flag: "-c".to_owned(), command_line: line }
        },
        Platform::Windows => {
            line.append(" && venv-test\\Scripts\\activate && python main.py");
            SpawnCommand { program: "cmd".to_owned(), flag: "/C".to_owned(), command_line: line }
        },
    }
}

/// Plans the backend start in one step: derives the backend directory
/// from the launcher's working directory and builds the spawn command
/// for the given platform. `None` exactly when the working directory is
/// too shallow to hold the expected repository layout.
pub fn plan_backend_start(platform: Platform, cwd: &DirPath) -> (r: Option<SpawnCommand>)
    ensures
        r is Some <==> cwd@.len() >= 2,
        r is Some ==> {
            let cmd = r->Some_0;
            &&& platform is Unix ==> cmd.program@ == "bash"@ && cmd.flag@ == "-c"@
                && cmd.command_line@ == unix_command_line(backend_dir_of(cwd@))
            &&& platform is Windows ==> cmd.program@ == "cmd"@ && cmd.flag@ == "/C"@
                && cmd.command_line@ == windows_command_line(backend_dir_of(cwd@))
        },
{
    match backend_dir(cwd) {
        None => None,
        Some(dir) => Some(backend_command(platform, &dir)),
    }
}

} // verus!
