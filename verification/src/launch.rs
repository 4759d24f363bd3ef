//! The course of a launch.
//!
//! [`launch_step`] decides which step comes next and what a failed one is answered with; whoever
//! runs the launch performs the steps.
use crate::config::Error;
use std::path::PathBuf;
use vstd::prelude::*;
use vstd::slice::*;
use vstd::string::*;
use vstd::utf8::*;

verus! {

/// The steps of a launch, in their order.
#[derive(Clone, Copy, Debug, PartialEq, Eq, Structural)]
pub enum LaunchPhase {
    /// Going to the folder of the client.
    EnterFolder,
    /// Reading the folder's name as text.
    NameFolder,
    /// Finding the settings file.
    FindIni,
    /// Asking for the launcher's own module.
    MainModule,
    /// Opening or creating the client's mutexes.
    Mutexes,
    /// Allocating and filling the memory that is shared with the client.
    AllocGlobal,
    /// Loading the client's library.
    LoadDll,
    /// Finding the entry point of the library.
    FindEntry,
    /// Running the client and, beside it, the friend injector.
    Run,
    FreeDll,
    FreeGlobal,
    Done,
}

/// What the failure of a step is answered with. Running the client cannot fail.
pub open spec fn phase_error(phase: LaunchPhase) -> Option<Error> {
    match phase {
        LaunchPhase::EnterFolder => Some(Error::GamePath),
        LaunchPhase::NameFolder => Some(Error::GamePath),
        LaunchPhase::FindIni => Some(Error::GamePath),
        LaunchPhase::MainModule => Some(Error::Module),
        LaunchPhase::Mutexes => Some(Error::Mutex),
        LaunchPhase::AllocGlobal => Some(Error::GlobalAlloc),
        LaunchPhase::LoadDll => Some(Error::Dll),
        LaunchPhase::FindEntry => Some(Error::ProcNotFound),
        LaunchPhase::Run => None,
        LaunchPhase::FreeDll => Some(Error::Dll),
        LaunchPhase::FreeGlobal => Some(Error::GlobalAlloc),
        LaunchPhase::Done => None,
    }
}

/// The step that comes after another.
pub open spec fn next_phase(phase: LaunchPhase) -> LaunchPhase {
    match phase {
        LaunchPhase::EnterFolder => LaunchPhase::NameFolder,
        LaunchPhase::NameFolder => LaunchPhase::FindIni,
        LaunchPhase::FindIni => LaunchPhase::MainModule,
        LaunchPhase::MainModule => LaunchPhase::Mutexes,
        LaunchPhase::Mutexes => LaunchPhase::AllocGlobal,
        LaunchPhase::AllocGlobal => LaunchPhase::LoadDll,
        LaunchPhase::LoadDll => LaunchPhase::FindEntry,
        LaunchPhase::FindEntry => LaunchPhase::Run,
        LaunchPhase::Run => LaunchPhase::FreeDll,
        LaunchPhase::FreeDll => LaunchPhase::FreeGlobal,
        LaunchPhase::FreeGlobal => LaunchPhase::Done,
        LaunchPhase::Done => LaunchPhase::Done,
    }
}

/// How the launch goes on after a step.
pub open spec fn step_result(phase: LaunchPhase, succeeded: bool) -> Result<LaunchPhase, Error> {
    match phase_error(phase) {
        Some(e) if !succeeded => Err(e),
        _ => Ok(next_phase(phase)),
    }
}

/// Decides how the launch goes on after a step. A step that failed ends the launch with its error.
pub fn launch_step(phase: LaunchPhase, succeeded: bool) -> (res: Result<LaunchPhase, Error>)
    ensures
        res == step_result(phase, succeeded),
{
    let (next, error) = match phase {
        LaunchPhase::EnterFolder => (LaunchPhase::NameFolder, Some(Error::GamePath)),
        LaunchPhase::NameFolder => (LaunchPhase::FindIni, Some(Error::GamePath)),
        LaunchPhase::FindIni => (LaunchPhase::MainModule, Some(Error::GamePath)),
        LaunchPhase::MainModule => (LaunchPhase::Mutexes, Some(Error::Module)),
        LaunchPhase::Mutexes => (LaunchPhase::AllocGlobal, Some(Error::Mutex)),
        LaunchPhase::AllocGlobal => (LaunchPhase::LoadDll, Some(Error::GlobalAlloc)),
        LaunchPhase::LoadDll => (LaunchPhase::FindEntry, Some(Error::Dll)),
        LaunchPhase::FindEntry => (LaunchPhase::Run, Some(Error::ProcNotFound)),
        LaunchPhase::Run => (LaunchPhase::FreeDll, None),
        LaunchPhase::FreeDll => (LaunchPhase::FreeGlobal, Some(Error::Dll)),
        LaunchPhase::FreeGlobal => (LaunchPhase::Done, Some(Error::GlobalAlloc)),
        LaunchPhase::Done => (LaunchPhase::Done, None),
    };
    match error {
        Some(e) => {
            if succeeded {
                Ok(next)
            } else {
                Err(e)
            }
        },
        None => Ok(next),
    }
}

/// The folder of the client: the one that is configured, or else the current one.
pub fn game_folder(configured: Option<PathBuf>, current: Option<PathBuf>) -> (res: Result<
    PathBuf,
    Error,
>)
    ensures
        res == (match (configured, current) {
            (Some(folder), _) => Ok(folder),
            (None, Some(folder)) => Ok(folder),
            (None, None) => Err(Error::GamePath),
        }),
{
    match configured {
        Some(folder) => Ok(folder),
        None => match current {
            Some(folder) => Ok(folder),
            None => Err(Error::GamePath),
        },
    }
}

/// The name of the client's folder, as its block holds it. `path` is `None` where it is not text.
pub fn folder_name(path: Option<&str>) -> (res: Result<Vec<u8>, Error>)
    ensures
        match res {
            Ok(name) => path matches Some(p) && name@ == encode_utf8(p@),
            Err(e) => e == Error::GamePath && path is None,
        },
{
    match path {
        Some(p) => Ok(slice_to_vec(p.as_bytes())),
        None => Err(Error::GamePath),
    }
}

/// Where a launch stands after steps with the given outcomes, from `phase` on, or the error that
/// has ended it.
pub open spec fn after_steps(phase: LaunchPhase, outcomes: Seq<bool>) -> Result<LaunchPhase, Error>
    decreases outcomes.len(),
{
    if outcomes.len() == 0 {
        Ok(phase)
    } else {
        match step_result(phase, outcomes[0]) {
            Ok(next) => after_steps(next, outcomes.drop_first()),
            Err(e) => Err(e),
        }
    }
}

/// The step that comes `n` steps after `phase`.
pub open spec fn nth_phase(phase: LaunchPhase, n: nat) -> LaunchPhase
    decreases n,
{
    if n == 0 {
        phase
    } else {
        nth_phase(next_phase(phase), (n - 1) as nat)
    }
}

/// A launch whose steps all succeed goes through all of them, and is done after the eleventh and
/// no sooner.
pub proof fn law_launch_succeeds(outcomes: Seq<bool>)
    requires
        forall|i: int| 0 <= i < outcomes.len() ==> outcomes[i],
    ensures
        after_steps(LaunchPhase::EnterFolder, outcomes) == Ok::<LaunchPhase, Error>(
            nth_phase(LaunchPhase::EnterFolder, outcomes.len()),
        ),
        nth_phase(LaunchPhase::EnterFolder, outcomes.len()) == LaunchPhase::Done <==> outcomes.len()
            >= 11,
{
    lemma_successes(LaunchPhase::EnterFolder, outcomes);
    reveal_with_fuel(nth_phase, 12);
    if outcomes.len() >= 11 {
        lemma_done_stays((outcomes.len() - 11) as nat);
    }
}

proof fn lemma_successes(phase: LaunchPhase, outcomes: Seq<bool>)
    requires
        forall|i: int| 0 <= i < outcomes.len() ==> outcomes[i],
    ensures
        after_steps(phase, outcomes) == Ok::<LaunchPhase, Error>(nth_phase(phase, outcomes.len())),
    decreases outcomes.len(),
{
    if outcomes.len() > 0 {
        assert(outcomes[0]);
        lemma_successes(next_phase(phase), outcomes.drop_first());
    }
}

proof fn lemma_done_stays(n: nat)
    ensures
        nth_phase(LaunchPhase::Done, n) == LaunchPhase::Done,
    decreases n,
{
    if n > 0 {
        lemma_done_stays((n - 1) as nat);
    }
}

/// The first step that fails ends a launch with the error of that step, whatever would have come
/// after it.
pub proof fn law_launch_fails(phase: LaunchPhase, outcomes: Seq<bool>, k: nat)
    requires
        k < outcomes.len(),
        forall|i: int| 0 <= i < k ==> outcomes[i],
        !outcomes[k as int],
        phase_error(nth_phase(phase, k)) is Some,
    ensures
        after_steps(phase, outcomes) == Err::<LaunchPhase, Error>(
            phase_error(nth_phase(phase, k)).unwrap(),
        ),
    decreases k,
{
    if k > 0 {
        assert(outcomes[0]);
        law_launch_fails(next_phase(phase), outcomes.drop_first(), (k - 1) as nat);
    }
}

/// A step whose failure matters ends the launch with one error, and else the launch goes on in the
/// same way whether the step succeeded or not. The client is freed, and the shared memory after it,
/// however it ran.
pub proof fn law_launch_steps(succeeded: bool)
    ensures
        step_result(LaunchPhase::EnterFolder, true) == Ok::<LaunchPhase, Error>(
            LaunchPhase::NameFolder,
        ),
        step_result(LaunchPhase::NameFolder, true) == Ok::<LaunchPhase, Error>(
            LaunchPhase::FindIni,
        ),
        step_result(LaunchPhase::FindIni, true) == Ok::<LaunchPhase, Error>(
            LaunchPhase::MainModule,
        ),
        step_result(LaunchPhase::MainModule, true) == Ok::<LaunchPhase, Error>(
            LaunchPhase::Mutexes,
        ),
        step_result(LaunchPhase::Mutexes, true) == Ok::<LaunchPhase, Error>(
            LaunchPhase::AllocGlobal,
        ),
        step_result(LaunchPhase::AllocGlobal, true) == Ok::<LaunchPhase, Error>(
            LaunchPhase::LoadDll,
        ),
        step_result(LaunchPhase::LoadDll, true) == Ok::<LaunchPhase, Error>(LaunchPhase::FindEntry),
        step_result(LaunchPhase::FindEntry, true) == Ok::<LaunchPhase, Error>(LaunchPhase::Run),
        step_result(LaunchPhase::Run, succeeded) == Ok::<LaunchPhase, Error>(LaunchPhase::FreeDll),
        step_result(LaunchPhase::FreeDll, true) == Ok::<LaunchPhase, Error>(
            LaunchPhase::FreeGlobal,
        ),
        step_result(LaunchPhase::FreeGlobal, true) == Ok::<LaunchPhase, Error>(LaunchPhase::Done),
        step_result(LaunchPhase::Done, succeeded) == Ok::<LaunchPhase, Error>(LaunchPhase::Done),
        step_result(LaunchPhase::EnterFolder, false) == Err::<LaunchPhase, Error>(Error::GamePath),
        step_result(LaunchPhase::NameFolder, false) == Err::<LaunchPhase, Error>(Error::GamePath),
        step_result(LaunchPhase::FindIni, false) == Err::<LaunchPhase, Error>(Error::GamePath),
        step_result(LaunchPhase::MainModule, false) == Err::<LaunchPhase, Error>(Error::Module),
        step_result(LaunchPhase::Mutexes, false) == Err::<LaunchPhase, Error>(Error::Mutex),
        step_result(LaunchPhase::AllocGlobal, false) == Err::<LaunchPhase, Error>(
            Error::GlobalAlloc,
        ),
        step_result(LaunchPhase::LoadDll, false) == Err::<LaunchPhase, Error>(Error::Dll),
        step_result(LaunchPhase::FindEntry, false) == Err::<LaunchPhase, Error>(
            Error::ProcNotFound,
        ),
        step_result(LaunchPhase::FreeDll, false) == Err::<LaunchPhase, Error>(Error::Dll),
        step_result(LaunchPhase::FreeGlobal, false) == Err::<LaunchPhase, Error>(
            Error::GlobalAlloc,
        ),
{
}

/// What a launch goes on with after a step is what the laws on its steps say.
pub proof fn law_launch_step(
    phase: LaunchPhase,
    succeeded: bool,
    res: Result<LaunchPhase, Error>,
)
    requires
        call_ensures(launch_step, (phase, succeeded), res),
    ensures
        res == step_result(phase, succeeded),
{
}

/// A configured folder is the client's, whatever the current one is, and the current one is where
/// none is configured.
pub proof fn law_game_folder(
    configured: Option<PathBuf>,
    current: Option<PathBuf>,
    res: Result<PathBuf, Error>,
)
    requires
        call_ensures(game_folder, (configured, current), res),
    ensures
        configured is Some ==> res == Ok::<PathBuf, Error>(configured.unwrap()),
        configured is None && current is Some ==> res == Ok::<PathBuf, Error>(current.unwrap()),
        configured is None && current is None ==> res == Err::<PathBuf, Error>(Error::GamePath),
{
}

/// A folder has a name exactly where its path is text, and the name is that text in UTF-8.
pub proof fn law_folder_name(path: Option<&str>, res: Result<Vec<u8>, Error>)
    requires
        call_ensures(folder_name, (path,), res),
    ensures
        res is Ok <==> path is Some,
        res matches Ok(name) ==> name@ == encode_utf8(path.unwrap()@),
        res matches Err(e) ==> e == Error::GamePath,
{
}

} // verus!
