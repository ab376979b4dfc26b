use vstd::prelude::*;
use crate::settings::{string_views, CleanSettings, ServerSoftwareSettings};

verus! {

/// The runtime that runs the server binary.
pub const RUNTIME: &'static str = "java";

/// Where one supervision cycle stands.
#[derive(Clone, Copy, Debug, PartialEq, Eq, Structural)]
pub enum SupervisorState {
    Starting,
    Running,
    /// The server stopped with this exit code.
    Exited(i32),
    /// The reboot delay has passed.
    Sleeping,
}

/// What the caller reports after it carried out an action.
#[derive(Clone, Copy, Debug, PartialEq, Eq, Structural)]
pub enum SupervisorEvent {
    Spawned,
    SpawnFailed,
    /// The server process ended with this exit code.
    Exited(i32),
    /// The requested sleep, cleanup or pause is over.
    Done,
}

/// What the supervisor asks its caller to do next.
#[derive(Clone, Copy, Debug, PartialEq, Eq, Structural)]
pub enum SupervisorAction {
    /// Start the server with `server_command`.
    Spawn,
    /// Wait for the server process to end.
    Wait,
    /// Sleep this many seconds.
    Sleep(u32),
    /// Run the cleanup, to completion.
    Clean,
    /// Go on to the next cycle.
    Proceed,
}

/// The server could not be started: there is nothing to supervise.
#[derive(Clone, Copy, Debug, PartialEq, Eq, Structural)]
pub enum ProcessError {
    Spawn,
}

pub open spec fn supervisor_step(s: SupervisorState, e: SupervisorEvent) -> SupervisorState {
    match (s, e) {
        (SupervisorState::Starting, SupervisorEvent::Spawned) => SupervisorState::Running,
        (SupervisorState::Running, SupervisorEvent::Exited(code)) => SupervisorState::Exited(code),
        (SupervisorState::Exited(_), SupervisorEvent::Done) => SupervisorState::Sleeping,
        (SupervisorState::Sleeping, SupervisorEvent::Done) => SupervisorState::Starting,
        _ => s,
    }
}

pub open spec fn supervisor_action(
    s: SupervisorState,
    reboot_delay: u32,
    clean_on_reboot: bool,
) -> SupervisorAction {
    match s {
        SupervisorState::Starting => SupervisorAction::Spawn,
        SupervisorState::Running => SupervisorAction::Wait,
        SupervisorState::Exited(_) => SupervisorAction::Sleep(reboot_delay),
        SupervisorState::Sleeping => if clean_on_reboot {
            SupervisorAction::Clean
        } else {
            SupervisorAction::Proceed
        },
    }
}

/// The command line that starts the server: the configured flags, then the
/// binary, then the argument that turns off the server's own window.
pub open spec fn server_command_spec(server: ServerSoftwareSettings) -> Seq<Seq<char>> {
    string_views(server.flags@) + seq!["-jar"@, server.name@, "nogui"@]
}

/// Arguments for `RUNTIME` that start the server.
pub fn server_command(server: &ServerSoftwareSettings) -> (r: Vec<String>)
    ensures
        string_views(r@) == server_command_spec(*server),
{
    let mut r: Vec<String> = Vec::new();
    let mut i: usize = 0;
    while i < server.flags.len()
        invariant
            i <= server.flags@.len(),
            r@.len() == i,
            forall|k: int| 0 <= k < i ==> (#[trigger] r@[k])@ == server.flags@[k]@,
        decreases server.flags@.len() - i,
    {
        r.push(server.flags[i].clone());
        i = i + 1;
    }
    r.push("-jar".to_string());
    r.push(server.name.clone());
    r.push("nogui".to_string());
    assert(string_views(r@) =~= server_command_spec(*server));
    r
}

/// Runs the server again and again: the caller performs `action()` and
/// hands its result to `advance`. There is no final state.
pub struct Supervisor {
    pub state: SupervisorState,
    pub reboot_delay: u32,
    /// Whether a cleanup runs between two runs of the server.
    pub clean_on_reboot: bool,
}

impl Supervisor {
    pub fn new(server: &ServerSoftwareSettings, clean: &CleanSettings) -> (r: Supervisor)
        ensures
            r.state == SupervisorState::Starting,
            r.reboot_delay == server.reboot_delay,
            r.clean_on_reboot == (clean.also_on_reboot && clean.enabled),
    {
        Supervisor {
            state: SupervisorState::Starting,
            reboot_delay: server.reboot_delay,
            clean_on_reboot: clean.also_on_reboot && clean.enabled,
        }
    }

    pub fn action(&self) -> (r: SupervisorAction)
        ensures
            r == supervisor_action(self.state, self.reboot_delay, self.clean_on_reboot),
    {
        match self.state {
            SupervisorState::Starting => SupervisorAction::Spawn,
            SupervisorState::Running => SupervisorAction::Wait,
            SupervisorState::Exited(_) => SupervisorAction::Sleep(self.reboot_delay),
            SupervisorState::Sleeping => if self.clean_on_reboot {
                SupervisorAction::Clean
            } else {
                SupervisorAction::Proceed
            },
        }
    }

    /// Takes in what came of the last action. A failed start is the one
    /// error: it ends supervision.
    pub fn advance(&mut self, e: SupervisorEvent) -> (r: Result<(), ProcessError>)
        ensures
            r is Err <==> (old(self).state == SupervisorState::Starting && e
                == SupervisorEvent::SpawnFailed),
            final(self).state == supervisor_step(old(self).state, e),
            final(self).reboot_delay == old(self).reboot_delay,
            final(self).clean_on_reboot == old(self).clean_on_reboot,
    {
        match (self.state, e) {
            (SupervisorState::Starting, SupervisorEvent::SpawnFailed) => {
                return Err(ProcessError::Spawn);
            },
            (SupervisorState::Starting, SupervisorEvent::Spawned) => {
                self.state = SupervisorState::Running;
            },
            (SupervisorState::Running, SupervisorEvent::Exited(code)) => {
                self.state = SupervisorState::Exited(code);
            },
            (SupervisorState::Exited(_), SupervisorEvent::Done) => {
                self.state = SupervisorState::Sleeping;
            },
            (SupervisorState::Sleeping, SupervisorEvent::Done) => {
                self.state = SupervisorState::Starting;
            },
            _ => {},
        }
        Ok(())
    }
}

/// One supervision cycle: whatever code the server exits with, the
/// supervisor sleeps the reboot delay, then cleans if it is set to clean on
/// reboot, then starts exactly one new server.
pub proof fn lemma_reboot_cycle(code: i32, reboot_delay: u32, clean_on_reboot: bool)
    ensures
        ({
            let exited = supervisor_step(SupervisorState::Running, SupervisorEvent::Exited(code));
            let slept = supervisor_step(exited, SupervisorEvent::Done);
            let next = supervisor_step(slept, SupervisorEvent::Done);
            &&& supervisor_action(exited, reboot_delay, clean_on_reboot) == SupervisorAction::Sleep(
                reboot_delay,
            )
            &&& supervisor_action(slept, reboot_delay, clean_on_reboot) == (if clean_on_reboot {
                SupervisorAction::Clean
            } else {
                SupervisorAction::Proceed
            })
            &&& next == SupervisorState::Starting
            &&& supervisor_action(next, reboot_delay, clean_on_reboot) == SupervisorAction::Spawn
            &&& supervisor_step(next, SupervisorEvent::Spawned) == SupervisorState::Running
        }),
{
}

} // verus!
