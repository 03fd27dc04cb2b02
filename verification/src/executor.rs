//! The process execution abstraction: a minimal interface for building one
//! external command (program name, ordered argument list), running it, and
//! observing the outcome. The model records every finished invocation, so
//! that callers can state exactly which commands an operation issued and in
//! what order.

use vstd::prelude::*;

verus! {

/// What one finished run of an external program produced: the captured
/// standard output on success, the captured error text on failure.
pub ghost enum Outcome {
    Success(Seq<char>),
    Failure(Seq<char>),
}

/// One finished invocation: the program name, the arguments in the order
/// they were supplied, and what the run produced.
pub ghost struct Invocation {
    pub program: Seq<char>,
    pub args: Seq<Seq<char>>,
    pub outcome: Outcome,
}

/// A failure of the execution layer: either no program was set before
/// running, or the run itself failed and carries a diagnostic text (the
/// captured error stream, or the reason the process could not be launched).
#[derive(Debug, PartialEq, Eq)]
pub enum Error {
    NoCommand,
    CannotExecuteCommand(String),
}

/// The outcome an invocation is recorded with, given what `execute`
/// returned for it.
pub open spec fn outcome_of(r: Result<String, Error>) -> Outcome {
    match r {
        Ok(s) => Outcome::Success(s@),
        Err(Error::NoCommand) => Outcome::Failure(Seq::empty()),
        Err(Error::CannotExecuteCommand(m)) => Outcome::Failure(m@),
    }
}

/// The interface through which this layer invokes an external program.
///
/// An implementation carries a program name (empty until one is set), the
/// arguments accumulated since the last run, and the list of invocations it
/// has completed, oldest first. Running with no program set fails with
/// `Error::NoCommand` and changes nothing; otherwise exactly one invocation
/// is appended to the history and the argument list is cleared, so the same
/// instance can be reused against the same program.
pub trait Executor: Sized {
    /// The program name currently set; empty when none was set yet. An
    /// implementation overrides this with its own model.
    open spec fn program(&self) -> Seq<char> {
        Seq::empty()
    }

    /// The arguments accumulated since the last run. An implementation
    /// overrides this with its own model.
    open spec fn args(&self) -> Seq<Seq<char>> {
        Seq::empty()
    }

    /// Every invocation this executor has completed, oldest first. An
    /// implementation overrides this with its own model.
    open spec fn history(&self) -> Seq<Invocation> {
        Seq::empty()
    }

    /// Set the program to invoke from now on.
    fn command(&mut self, cmd: String)
        ensures
            final(self).program() == cmd@,
            final(self).args() == old(self).args(),
            final(self).history() == old(self).history(),
    ;

    /// Append one argument to the pending invocation.
    fn arg(&mut self, name: String)
        ensures
            final(self).program() == old(self).program(),
            final(self).args() == old(self).args().push(name@),
            final(self).history() == old(self).history(),
    ;

    /// Run the pending invocation and wait for it.
    fn execute(&mut self) -> (r: Result<String, Error>)
        ensures
            old(self).program().len() == 0 ==> r == Err::<String, Error>(Error::NoCommand)
                && *final(self) == *old(self),
            old(self).program().len() > 0 ==> !(r matches Err(e) && e is NoCommand)
                && final(self).program() == old(self).program()
                && final(self).args() == Seq::<Seq<char>>::empty()
                && final(self).history() == old(self).history().push(
                Invocation {
                    program: old(self).program(),
                    args: old(self).args(),
                    outcome: outcome_of(r),
                },
            ),
    ;
}

/// A canned reply for one future invocation of a `ScriptedExecutor`:
/// standard output of a successful run, or the error text of a failed one.
#[derive(Debug)]
pub enum ScriptedReply {
    Stdout(String),
    Stderr(String),
}

/// The record a `ScriptedExecutor` keeps of one finished invocation:
/// `output` is the standard output when `success` holds, the error text
/// otherwise.
#[derive(Debug)]
pub struct InvocationRecord {
    pub program: String,
    pub args: Vec<String>,
    pub success: bool,
    pub output: String,
}

impl View for InvocationRecord {
    type V = Invocation;

    open spec fn view(&self) -> Invocation {
        Invocation {
            program: self.program@,
            args: self.args.deep_view(),
            outcome: if self.success {
                Outcome::Success(self.output@)
            } else {
                Outcome::Failure(self.output@)
            },
        }
    }
}

/// An in-memory `Executor` that never spawns a process: it replies with the
/// next entry of a fixed script (standard output `""` once the script is
/// used up) and records every invocation. It serves tests that assert on
/// the exact command sequence an operation issues.
pub struct ScriptedExecutor {
    pub program: String,
    pub args: Vec<String>,
    pub script: Vec<ScriptedReply>,
    pub log: Vec<InvocationRecord>,
}

impl ScriptedExecutor {
    /// An executor with no program set, an empty script and an empty log.
    pub fn new() -> (r: Self)
        ensures
            r.program() == Seq::<char>::empty(),
            r.args() == Seq::<Seq<char>>::empty(),
            r.history() == Seq::<Invocation>::empty(),
    {
        let r = ScriptedExecutor { program: String::new(), args: Vec::new(), script: Vec::new(), log: Vec::new() };
        proof {
            assert(r.args.deep_view() =~= Seq::<Seq<char>>::empty());
            assert(r.log@.map_values(|rec: InvocationRecord| rec@) =~= Seq::<Invocation>::empty());
        }
        r
    }

    /// An executor that will reply with the given script, in order.
    pub fn with_script(script: Vec<ScriptedReply>) -> (r: Self)
        ensures
            r.program() == Seq::<char>::empty(),
            r.args() == Seq::<Seq<char>>::empty(),
            r.history() == Seq::<Invocation>::empty(),
    {
        let r = ScriptedExecutor { program: String::new(), args: Vec::new(), script, log: Vec::new() };
        proof {
            assert(r.args.deep_view() =~= Seq::<Seq<char>>::empty());
            assert(r.log@.map_values(|rec: InvocationRecord| rec@) =~= Seq::<Invocation>::empty());
        }
        r
    }
}

impl Executor for ScriptedExecutor {
    open spec fn program(&self) -> Seq<char> {
        self.program@
    }

    open spec fn args(&self) -> Seq<Seq<char>> {
        self.args.deep_view()
    }

    open spec fn history(&self) -> Seq<Invocation> {
        self.log@.map_values(|rec: InvocationRecord| rec@)
    }

    fn command(&mut self, cmd: String) {
        self.program = cmd;
    }

    fn arg(&mut self, name: String) {
        self.args.push(name);
        proof {
            assert(self.args.deep_view() =~= old(self).args.deep_view().push(name@));
        }
    }

    fn execute(&mut self) -> (r: Result<String, Error>) {
        if self.program.as_str().is_empty() {
            return Err(Error::NoCommand);
        }
        let reply: Option<&ScriptedReply> = if self.log.len() < self.script.len() {
            Some(&self.script[self.log.len()])
        } else {
            None
        };
        let (success, output, r): (bool, String, Result<String, Error>) = match reply {
            Some(ScriptedReply::Stdout(s)) => (true, s.clone(), Ok(s.clone())),
            Some(ScriptedReply::Stderr(m)) => (false, m.clone(), Err(Error::CannotExecuteCommand(m.clone()))),
            None => (true, String::new(), Ok(String::new())),
        };
        let mut recorded_args: Vec<String> = Vec::new();
        core::mem::swap(&mut recorded_args, &mut self.args);
        let record = InvocationRecord { program: self.program.clone(), args: recorded_args, success, output };
        self.log.push(record);
        proof {
            assert(self.args.deep_view() =~= Seq::<Seq<char>>::empty());
            assert(self.log@.map_values(|rec: InvocationRecord| rec@) =~= old(self).log@.map_values(
                |rec: InvocationRecord| rec@,
            ).push(self.log@.last()@));
        }
        r
    }
}

} // verus!
