//! Single-flight execution: at most one script runs at a time.

use vstd::prelude::*;

verus! {

/// Why a script was not started.
#[derive(Debug, Clone, Copy, PartialEq, Eq, Structural)]
pub enum RunError {
    /// Another script is still running.
    AlreadyRunning,
}

/// The text of [`RunError::AlreadyRunning`].
pub const ALREADY_RUNNING_TEXT: &'static str = "Script already running";

impl RunError {
    /// The error described in words.
    pub fn message(&self) -> (r: &'static str)
        ensures
            r@ == ALREADY_RUNNING_TEXT@,
    {
        ALREADY_RUNNING_TEXT
    }
}

/// What can happen to the guard.
#[derive(Debug, Clone, Copy, PartialEq, Eq, Structural)]
pub enum GuardEvent {
    /// A script asks to start.
    Start,
    /// The running script ended, with any outcome.
    Finish,
}

/// Whether `event` is accepted by a guard that is `running`, and whether a
/// script is running afterwards. A start is accepted only when none runs,
/// and either way a script runs afterwards: the new one or the one already
/// there.
pub open spec fn guard_step(running: bool, event: GuardEvent) -> (bool, bool) {
    match event {
        GuardEvent::Start => (!running, true),
        GuardEvent::Finish => (true, false),
    }
}

/// What a run that succeeded reports.
pub open spec fn success_report(name: Seq<char>) -> Seq<char> {
    "Script '"@ + name + "' executed successfully"@
}

/// What a run that failed reports.
pub open spec fn failure_report(error: Seq<char>) -> Seq<char> {
    "Script execution failed: "@ + error
}

/// The flag that says whether a script is running.
pub struct ScriptGuard {
    running: bool,
}

impl View for ScriptGuard {
    type V = bool;

    /// Whether a script is running.
    closed spec fn view(&self) -> bool {
        self.running
    }
}

impl ScriptGuard {
    /// An idle guard.
    pub fn new() -> (r: ScriptGuard)
        ensures
            !r@,
    {
        ScriptGuard { running: false }
    }

    /// Whether a script is running.
    pub fn is_running(&self) -> (r: bool)
        ensures
            r == self@,
    {
        self.running
    }

    /// Tries to start a run. A start while another run is in progress is
    /// refused and changes nothing.
    pub fn try_begin(&mut self) -> (r: Result<(), RunError>)
        ensures
            r is Ok <==> !old(self)@,
            r is Err ==> r == Err::<(), RunError>(RunError::AlreadyRunning),
            final(self)@,
            (r is Ok, final(self)@) == guard_step(old(self)@, GuardEvent::Start),
    {
        if self.running {
            Err(RunError::AlreadyRunning)
        } else {
            self.running = true;
            Ok(())
        }
    }

    /// Ends the current run, however it went.
    pub fn finish(&mut self)
        ensures
            !final(self)@,
            final(self)@ == guard_step(old(self)@, GuardEvent::Finish).1,
    {
        self.running = false;
    }

    /// Ends the run of the script called `name` and reports its outcome:
    /// `Script '<name>' executed successfully`, or
    /// `Script execution failed: <error>`. The guard is idle afterwards in
    /// both cases.
    pub fn finish_run(&mut self, name: &str, outcome: Result<(), String>) -> (r: Result<
        String,
        String,
    >)
        ensures
            !final(self)@,
            outcome is Ok ==> (r matches Ok(m) && m@ == success_report(name@)),
            outcome matches Err(e) ==> (r matches Err(m) && m@ == failure_report(e@)),
    {
        self.finish();
        match outcome {
            Ok(()) => {
                let mut m = String::from_str("Script '");
                m.append(name);
                m.append("' executed successfully");
                Ok(m)
            },
            Err(e) => {
                let mut m = String::from_str("Script execution failed: ");
                m.append(e.as_str());
                Err(m)
            },
        }
    }
}

/// Single flight. On an idle guard a first start is accepted; a second start
/// made before that run ends is refused; once the run has ended, with either
/// outcome, a third start is accepted again.
pub proof fn lemma_single_flight()
    ensures
        ({
            let first = guard_step(false, GuardEvent::Start);
            let second = guard_step(first.1, GuardEvent::Start);
            let ended = guard_step(second.1, GuardEvent::Finish);
            let third = guard_step(ended.1, GuardEvent::Start);
            first.0 && !second.0 && third.0
        }),
{
}

} // verus!
