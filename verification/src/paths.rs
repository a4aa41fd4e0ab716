//! Where the backend lives, and which interpreters may run it.
//!
//! A directory is given by its path segments, outermost first.

use crate::error::BridgeError;
use vstd::prelude::*;

verus! {

/// The segments of a path as texts.
pub open spec fn segments(path: Seq<String>) -> Seq<Seq<char>> {
    Seq::new(path.len(), |i: int| path[i]@)
}

/// The folder of the native shell. A process started there works one level
/// below the project root.
pub open spec fn shell_folder() -> Seq<char> {
    "src-tauri"@
}

/// The project root for a process that works in `working_dir`: the parent of
/// the shell folder where the process works there, else `working_dir`.
pub open spec fn project_root_of(working_dir: Seq<Seq<char>>) -> Seq<Seq<char>> {
    if working_dir.len() > 0 && working_dir.last() == shell_folder() {
        working_dir.drop_last()
    } else {
        working_dir
    }
}

/// The directory of the backend module: `backend` under the project root.
pub open spec fn backend_dir_of(working_dir: Seq<Seq<char>>) -> Seq<Seq<char>> {
    project_root_of(working_dir).push("backend"@)
}

/// Copies the first `count` segments of `path`.
fn leading_segments(path: &Vec<String>, count: usize) -> (copy: Vec<String>)
    requires
        count <= path@.len(),
    ensures
        segments(copy@) == segments(path@).take(count as int),
{
    let mut copy: Vec<String> = Vec::new();
    let mut i: usize = 0;
    while i < count
        invariant
            i <= count <= path@.len(),
            copy@.len() == i,
            segments(copy@) == segments(path@).take(i as int),
        decreases count - i,
    {
        let ghost before = copy@;
        copy.push(path[i].clone());
        i += 1;
        assert forall|k: int| 0 <= k < i implies segments(copy@)[k] == segments(path@)[k] by {
            if k < i - 1 {
                assert(segments(before)[k] == segments(path@).take(i - 1)[k]);
            }
        }
        assert(segments(copy@) =~= segments(path@).take(i as int));
    }
    copy
}

/// The directory of the backend module for a process that works in
/// `working_dir`.
pub fn backend_dir(working_dir: &Vec<String>) -> (backend: Vec<String>)
    ensures
        segments(backend@) == backend_dir_of(segments(working_dir@)),
{
    let depth = working_dir.len();
    let in_shell_folder = depth > 0 && working_dir[depth - 1] == String::from_str("src-tauri");
    let kept = if in_shell_folder {
        depth - 1
    } else {
        depth
    };
    let mut backend = leading_segments(working_dir, kept);
    backend.push(String::from_str("backend"));
    proof {
        let dir = segments(working_dir@);
        assert(dir.take(depth as int) =~= dir);
        assert(dir.take(depth - 1) =~= dir.drop_last());
        assert(segments(backend@) =~= dir.take(kept as int).push("backend"@));
    }
    backend
}

/// The directory of the backend module, from what reading the working
/// directory gave. Where the working directory could not be read, the call
/// fails with an environment error that carries the reason.
pub fn locate_backend(working_dir: Result<Vec<String>, String>) -> (backend: Result<
    Vec<String>,
    BridgeError,
>)
    ensures
        match working_dir {
            Ok(dir) => backend matches Ok(found) && segments(found@) == backend_dir_of(
                segments(dir@),
            ),
            Err(reason) => backend matches Err(BridgeError::Environment(kept)) && kept == reason,
        },
{
    match working_dir {
        Ok(dir) => Ok(backend_dir(&dir)),
        Err(reason) => Err(BridgeError::Environment(reason)),
    }
}

/// The kind of system that the bridge runs on, as far as paths depend on it.
#[derive(Clone, Copy, Debug, PartialEq, Eq, Structural)]
pub enum Platform {
    Unix,
    Windows,
}

/// An interpreter to try.
#[derive(Debug, PartialEq, Eq)]
pub enum InterpreterCandidate {
    /// An executable file, by the segments of its path.
    Executable(Vec<String>),
    /// A bare command name, to be found on the search path.
    Command(String),
}

/// Where the interpreter of the virtual environment stands, below the backend
/// directory.
pub open spec fn environment_interpreter(platform: Platform) -> Seq<Seq<char>> {
    match platform {
        Platform::Unix => seq!["pbook"@, "bin"@, "python"@],
        Platform::Windows => seq!["pbook"@, "Scripts"@, "python.exe"@],
    }
}

/// The interpreters to try, in this order: the one of the virtual environment
/// under the backend directory, then the commands `python3` and `python`.
pub open spec fn candidates_fit(
    backend: Seq<Seq<char>>,
    platform: Platform,
    candidates: Seq<InterpreterCandidate>,
) -> bool {
    &&& candidates.len() == 3
    &&& candidates[0] matches InterpreterCandidate::Executable(path) && segments(path@) == backend
        + environment_interpreter(platform)
    &&& candidates[1] matches InterpreterCandidate::Command(name) && name@ == "python3"@
    &&& candidates[2] matches InterpreterCandidate::Command(name) && name@ == "python"@
}

/// The interpreters to try for a backend in the directory `backend`.
pub fn interpreter_candidates(backend: &Vec<String>, platform: Platform) -> (candidates: Vec<
    InterpreterCandidate,
>)
    ensures
        candidates_fit(segments(backend@), platform, candidates@),
{
    let mut path = leading_segments(backend, backend.len());
    path.push(String::from_str("pbook"));
    match platform {
        Platform::Unix => {
            path.push(String::from_str("bin"));
            path.push(String::from_str("python"));
        },
        Platform::Windows => {
            path.push(String::from_str("Scripts"));
            path.push(String::from_str("python.exe"));
        },
    }
    proof {
        let dir = segments(backend@);
        assert(dir.take(backend@.len() as int) =~= dir);
        assert(segments(path@) =~= dir + environment_interpreter(platform));
    }
    let mut candidates: Vec<InterpreterCandidate> = Vec::new();
    candidates.push(InterpreterCandidate::Executable(path));
    candidates.push(InterpreterCandidate::Command(String::from_str("python3")));
    candidates.push(InterpreterCandidate::Command(String::from_str("python")));
    candidates
}

} // verus!
