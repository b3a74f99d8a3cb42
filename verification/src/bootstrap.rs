//! The order in which the process is brought up, and how it ends.
//!
//! Bringing the service up is outside work: installing the trace pipeline,
//! binding a socket, serving.  What is decided here is which piece of work
//! comes next and what the process exits with.  The binary performs the
//! work that [`Bootstrap::action`] asks for and reports how it went to
//! [`Bootstrap::advance`].

use crate::config::{Args, TraceSetup};
use vstd::prelude::*;

verus! {

/// Exit code of a process whose serve loop ended without an error.
pub const EXIT_SUCCESS: u8 = 0;

/// Exit code of a process that could not bind its listener, or whose serve
/// loop failed.
pub const EXIT_FAILURE: u8 = 1;

/// Exit code of a process whose arguments could not be read.
pub const EXIT_USAGE: u8 = 2;

/// One piece of startup work.
#[derive(Clone, Copy, Debug, PartialEq, Eq, Structural)]
pub enum Step {
    InstallTracing,
    BuildSchema,
    BuildRouter,
    Bind,
    Announce,
    Serve,
}

/// How a piece of work went.
#[derive(Clone, Copy, Debug, PartialEq, Eq, Structural)]
pub enum Outcome {
    Done,
    Failed,
}

/// What the process is to do next.
#[derive(Clone, Copy, Debug, PartialEq, Eq, Structural)]
pub enum Action {
    /// Install the process-wide trace pipeline with this setup.
    InstallTracing(TraceSetup),
    /// Assemble the schema.
    BuildSchema,
    /// Put the query page and the query endpoint on their path.
    BuildRouter,
    /// Bind a listener on every interface, on this port.
    Bind { port: usize },
    /// Print the line that says where the service listening on this port is reached.
    Announce { port: usize },
    /// Serve requests until the loop ends.
    Serve,
    /// Leave the process with this code.
    Exit { code: u8 },
}

/// Where the startup stands.
#[derive(Clone, Copy, Debug, PartialEq, Eq, Structural)]
pub enum Bootstrap {
    /// `step` is the work to do next, under the configuration `args`.
    Running { step: Step, args: Args },
    /// Nothing is left to do but to exit with `code`.
    Stopped { code: u8 },
}

impl Step {
    /// The step that follows this one; none follows serving.
    pub open spec fn spec_next(self) -> Option<Step> {
        match self {
            Step::InstallTracing => Some(Step::BuildSchema),
            Step::BuildSchema => Some(Step::BuildRouter),
            Step::BuildRouter => Some(Step::Bind),
            Step::Bind => Some(Step::Announce),
            Step::Announce => Some(Step::Serve),
            Step::Serve => None,
        }
    }

    /// The step that follows this one; none follows serving.
    pub fn next(self) -> (following: Option<Step>)
        ensures
            following == self.spec_next(),
    {
        match self {
            Step::InstallTracing => Some(Step::BuildSchema),
            Step::BuildSchema => Some(Step::BuildRouter),
            Step::BuildRouter => Some(Step::Bind),
            Step::Bind => Some(Step::Announce),
            Step::Announce => Some(Step::Serve),
            Step::Serve => None,
        }
    }
}

impl Bootstrap {
    /// The state a process starts in, given what reading its arguments gave.
    pub open spec fn spec_start(parsed: Option<Args>) -> Bootstrap {
        match parsed {
            Some(args) => Bootstrap::Running { step: Step::InstallTracing, args },
            None => Bootstrap::Stopped { code: EXIT_USAGE },
        }
    }

    /// The work that a state asks for.
    pub open spec fn spec_action(self) -> Action {
        match self {
            Bootstrap::Running { step, args } => match step {
                Step::InstallTracing => Action::InstallTracing(args.spec_trace_setup()),
                Step::BuildSchema => Action::BuildSchema,
                Step::BuildRouter => Action::BuildRouter,
                Step::Bind => Action::Bind { port: args.port },
                Step::Announce => Action::Announce { port: args.port },
                Step::Serve => Action::Serve,
            },
            Bootstrap::Stopped { code } => Action::Exit { code },
        }
    }

    /// The state that follows once the work asked for ended with `outcome`.
    pub open spec fn spec_advance(self, outcome: Outcome) -> Bootstrap {
        match self {
            Bootstrap::Running { step, args } => match outcome {
                Outcome::Failed => Bootstrap::Stopped { code: EXIT_FAILURE },
                Outcome::Done => match step.spec_next() {
                    Some(following) => Bootstrap::Running { step: following, args },
                    None => Bootstrap::Stopped { code: EXIT_SUCCESS },
                },
            },
            Bootstrap::Stopped { code } => self,
        }
    }

    /// Begins a startup.
    ///
    /// `parsed` is the configuration, or `None` where the arguments could not
    /// be read.  With a configuration the first work is to install tracing.
    /// Without one the process only exits, with [`EXIT_USAGE`]: no default
    /// stands in for a value that could not be read.
    pub fn start(parsed: Option<Args>) -> (state: Bootstrap)
        ensures
            state == Self::spec_start(parsed),
    {
        match parsed {
            Some(args) => Bootstrap::Running { step: Step::InstallTracing, args },
            None => Bootstrap::Stopped { code: EXIT_USAGE },
        }
    }

    /// The work to do in this state.
    pub fn action(&self) -> (work: Action)
        ensures
            work == self.spec_action(),
    {
        match self {
            Bootstrap::Running { step, args } => match step {
                Step::InstallTracing => Action::InstallTracing(args.trace_setup()),
                Step::BuildSchema => Action::BuildSchema,
                Step::BuildRouter => Action::BuildRouter,
                Step::Bind => Action::Bind { port: args.port },
                Step::Announce => Action::Announce { port: args.port },
                Step::Serve => Action::Serve,
            },
            Bootstrap::Stopped { code } => Action::Exit { code: *code },
        }
    }

    /// Moves on after the work of this state ended with `outcome`.
    ///
    /// Work that is done leads to the next step, and the end of serving to a
    /// stop with [`EXIT_SUCCESS`].  Work that failed stops the startup with
    /// [`EXIT_FAILURE`]: nothing is tried again.  A stopped startup stays as
    /// it is.
    pub fn advance(self, outcome: Outcome) -> (state: Bootstrap)
        ensures
            state == self.spec_advance(outcome),
    {
        match self {
            Bootstrap::Running { step, args } => match outcome {
                Outcome::Failed => Bootstrap::Stopped { code: EXIT_FAILURE },
                Outcome::Done => match step.next() {
                    Some(following) => Bootstrap::Running { step: following, args },
                    None => Bootstrap::Stopped { code: EXIT_SUCCESS },
                },
            },
            Bootstrap::Stopped { code } => Bootstrap::Stopped { code },
        }
    }

    /// The state reached from this one after the given outcomes, in order.
    pub open spec fn run(self, outcomes: Seq<Outcome>) -> Bootstrap
        decreases outcomes.len(),
    {
        if outcomes.len() == 0 {
            self
        } else {
            self.run(outcomes.drop_last()).spec_advance(outcomes.last())
        }
    }
}

/// The work of a process that runs under `args`, in the order in which it is
/// done when nothing fails.
pub open spec fn plan(args: Args) -> Seq<Action> {
    seq![
        Action::InstallTracing(args.spec_trace_setup()),
        Action::BuildSchema,
        Action::BuildRouter,
        Action::Bind { port: args.port },
        Action::Announce { port: args.port },
        Action::Serve,
    ]
}

/// The step that is done after `i` steps went well.
pub open spec fn step_at(i: int) -> Step {
    if i <= 0 {
        Step::InstallTracing
    } else if i == 1 {
        Step::BuildSchema
    } else if i == 2 {
        Step::BuildRouter
    } else if i == 3 {
        Step::Bind
    } else if i == 4 {
        Step::Announce
    } else {
        Step::Serve
    }
}

/// Whether the first `n` outcomes are all `Done`.
pub open spec fn all_done(outcomes: Seq<Outcome>, n: int) -> bool {
    forall|j: int| 0 <= j < n ==> outcomes[j] == Outcome::Done
}

/// What a process is asked to do after the first `i` of `outcomes`, where
/// `parsed` is what reading its arguments gave.
pub open spec fn asked(parsed: Option<Args>, outcomes: Seq<Outcome>, i: int) -> Action {
    Bootstrap::spec_start(parsed).run(outcomes.take(i)).spec_action()
}

/// One more outcome is one more call of `spec_advance`.
proof fn lemma_run_take(state: Bootstrap, outcomes: Seq<Outcome>, i: int)
    requires
        0 <= i < outcomes.len(),
    ensures
        state.run(outcomes.take(i + 1)) == state.run(outcomes.take(i)).spec_advance(outcomes[i]),
{
    let longer = outcomes.take(i + 1);
    assert(longer.drop_last() =~= outcomes.take(i));
    assert(longer.last() == outcomes[i]);
}

/// A stopped startup stays as it is, whatever is reported to it.
proof fn lemma_run_stopped(code: u8, outcomes: Seq<Outcome>)
    ensures
        (Bootstrap::Stopped { code }).run(outcomes) == (Bootstrap::Stopped { code }),
    decreases outcomes.len(),
{
    if outcomes.len() > 0 {
        lemma_run_stopped(code, outcomes.drop_last());
    }
}

/// The state after the first `i` outcomes, in closed form.
proof fn lemma_run_closed_form(args: Args, outcomes: Seq<Outcome>, i: int)
    requires
        0 <= i <= outcomes.len(),
    ensures
        i < 6 && all_done(outcomes, i) ==> Bootstrap::spec_start(Some(args)).run(outcomes.take(i))
            == (Bootstrap::Running { step: step_at(i), args }),
        i >= 6 && all_done(outcomes, 6) ==> Bootstrap::spec_start(Some(args)).run(outcomes.take(i))
            == (Bootstrap::Stopped { code: EXIT_SUCCESS }),
        i < 6 && !all_done(outcomes, i) ==> Bootstrap::spec_start(Some(args)).run(outcomes.take(i))
            == (Bootstrap::Stopped { code: EXIT_FAILURE }),
        i >= 6 && !all_done(outcomes, 6) ==> Bootstrap::spec_start(Some(args)).run(outcomes.take(i))
            == (Bootstrap::Stopped { code: EXIT_FAILURE }),
    decreases i,
{
    let begin = Bootstrap::spec_start(Some(args));
    if i == 0 {
        assert(outcomes.take(0) =~= Seq::<Outcome>::empty());
    } else {
        lemma_run_closed_form(args, outcomes, i - 1);
        lemma_run_take(begin, outcomes, i - 1);
    }
}

/// A startup follows the plan for as long as nothing fails, exits with
/// [`EXIT_SUCCESS`] once the six steps of the plan are done, and exits with
/// [`EXIT_FAILURE`] from the first failure on.  Whatever is reported after a
/// stop changes nothing.
pub proof fn lemma_startup_follows_plan(args: Args, outcomes: Seq<Outcome>, i: int)
    requires
        0 <= i <= outcomes.len(),
    ensures
        i < 6 && all_done(outcomes, i) ==> asked(Some(args), outcomes, i) == plan(args)[i],
        i >= 6 && all_done(outcomes, 6) ==> asked(Some(args), outcomes, i)
            == (Action::Exit { code: EXIT_SUCCESS }),
        !all_done(outcomes, i) && !all_done(outcomes, 6) ==> asked(Some(args), outcomes, i)
            == (Action::Exit { code: EXIT_FAILURE }),
{
    lemma_run_closed_form(args, outcomes, i);
}

/// The trace pipeline is installed once, and before any other work: a
/// process is asked to install it at its very start and never again.
pub proof fn lemma_tracing_installed_once(args: Args, outcomes: Seq<Outcome>, i: int)
    requires
        0 <= i <= outcomes.len(),
    ensures
        asked(Some(args), outcomes, i) is InstallTracing <==> i == 0,
{
    lemma_run_closed_form(args, outcomes, i);
}

/// A listener is bound only as the fourth piece of work, after tracing was
/// installed and the schema and the router were built, and on the port of
/// the configuration.
pub proof fn lemma_bind_follows_setup(args: Args, outcomes: Seq<Outcome>, i: int)
    requires
        0 <= i <= outcomes.len(),
        asked(Some(args), outcomes, i) is Bind,
    ensures
        i == 3,
        all_done(outcomes, 3),
        asked(Some(args), outcomes, i) == (Action::Bind { port: args.port }),
        asked(Some(args), outcomes, 0) == Action::InstallTracing(args.spec_trace_setup()),
        asked(Some(args), outcomes, 1) == Action::BuildSchema,
        asked(Some(args), outcomes, 2) == Action::BuildRouter,
{
    lemma_run_closed_form(args, outcomes, i);
    lemma_run_closed_form(args, outcomes, 0);
    lemma_run_closed_form(args, outcomes, 1);
    lemma_run_closed_form(args, outcomes, 2);
}

/// A process whose arguments could not be read does no work at all: whatever
/// is reported to it, it only exits, with [`EXIT_USAGE`].  In particular it
/// binds no listener.
pub proof fn lemma_unread_arguments_only_exit(outcomes: Seq<Outcome>, i: int)
    requires
        0 <= i <= outcomes.len(),
    ensures
        asked(None, outcomes, i) == (Action::Exit { code: EXIT_USAGE }),
{
    lemma_run_stopped(EXIT_USAGE, outcomes.take(i));
}

/// A process exits with [`EXIT_SUCCESS`] only after all six steps of its
/// plan were done; every other exit carries a code that is not zero.
pub proof fn lemma_exit_codes(parsed: Option<Args>, outcomes: Seq<Outcome>, i: int)
    requires
        0 <= i <= outcomes.len(),
        asked(parsed, outcomes, i) is Exit,
    ensures
        asked(parsed, outcomes, i)->code == EXIT_SUCCESS
            <==> parsed is Some && i >= 6 && all_done(outcomes, 6),
        asked(parsed, outcomes, i)->code != EXIT_SUCCESS
            ==> asked(parsed, outcomes, i)->code == EXIT_USAGE
                || asked(parsed, outcomes, i)->code == EXIT_FAILURE,
{
    match parsed {
        Some(args) => {
            lemma_run_closed_form(args, outcomes, i);
        },
        None => {
            lemma_unread_arguments_only_exit(outcomes, i);
        },
    }
}

} // verus!
