//! Carrying out a batch, one command at a time.
//!
//! The library decides; a driver acts. [`Execution`] hands the driver one
//! [`Command`] after another: an action to inject into the host, or a pause.
//! The driver performs the command and reports back with
//! [`Execution::complete`], until the command is [`Command::Finish`].
//!
//! An action that the host refuses does not end the batch: its status line
//! says so, and the next action follows. A batch of N actions therefore always
//! yields N status lines, in the order of the actions.

use vstd::prelude::*;
use vstd::string::*;
use crate::action::{ActionBatch, MouseAction};
use crate::button::MouseButton;

verus! {

/// Why the host did not carry out an action.
#[derive(Clone, Copy, Debug, PartialEq, Eq, Structural)]
pub enum InjectionError {
    /// There is no input device to drive, or no display.
    Unavailable,
    /// The host does not let this process inject input.
    PermissionDenied,
    /// The host rejects the place the cursor should go to.
    InvalidCoordinate,
}

impl InjectionError {
    /// The reason in words, as a status line gives it.
    pub open spec fn reason_spec(self) -> Seq<char> {
        match self {
            InjectionError::Unavailable => "injector unavailable"@,
            InjectionError::PermissionDenied => "permission denied"@,
            InjectionError::InvalidCoordinate => "invalid coordinate"@,
        }
    }

    /// The reason in words.
    pub fn reason(&self) -> (text: &'static str)
        ensures
            text@ == self.reason_spec(),
    {
        match self {
            InjectionError::Unavailable => "injector unavailable",
            InjectionError::PermissionDenied => "permission denied",
            InjectionError::InvalidCoordinate => "invalid coordinate",
        }
    }
}

/// What the driver is to do next.
#[derive(Clone, Copy, Debug, PartialEq, Eq, Structural)]
pub enum Command {
    /// Press the button and hold it.
    Press(MouseButton),
    /// Let the button go.
    Release(MouseButton),
    /// Move the cursor to the pixel (x, y).
    MoveTo(i32, i32),
    /// Wait for so many milliseconds.
    Pause(u64),
    /// Nothing is left to do.
    Finish,
}

/// The command that injects an action into the host.
pub open spec fn injection_spec(action: MouseAction) -> Command {
    match action {
        MouseAction::MouseDown(button) => Command::Press(button),
        MouseAction::MouseUp(button) => Command::Release(button),
        MouseAction::MouseMove(x, y) => Command::MoveTo(
            x.pixel_spec() as i32,
            y.pixel_spec() as i32,
        ),
    }
}

/// The status line of an action, given how its injection went.
pub open spec fn status_spec(action: MouseAction, outcome: Result<(), InjectionError>) -> Seq<
    char,
> {
    match outcome {
        Ok(_) => action.describe_spec(),
        Err(error) => action.describe_spec() + " failed: "@ + error.reason_spec(),
    }
}

/// Maps an action to the command that injects it. A move goes to the pixel
/// that its coordinates are cut to.
pub fn injection(action: &MouseAction) -> (command: Command)
    ensures
        command == injection_spec(*action),
{
    match action {
        MouseAction::MouseDown(button) => Command::Press(*button),
        MouseAction::MouseUp(button) => Command::Release(*button),
        MouseAction::MouseMove(x, y) => Command::MoveTo(x.pixel(), y.pixel()),
    }
}

/// Writes the status line of an action: the line that reports it, followed,
/// where the host refused it, by the word "failed" and the reason.
pub fn status(action: &MouseAction, outcome: &Result<(), InjectionError>) -> (line: String)
    ensures
        line@ == status_spec(*action, *outcome),
{
    let mut line = action.describe();
    match outcome {
        Ok(_) => {},
        Err(error) => {
            line.append(" failed: ");
            line.append(error.reason());
        },
    }
    line
}

/// How far a batch has been carried out.
pub struct Progress {
    /// The actions of the batch.
    pub actions: Seq<MouseAction>,
    /// The time to wait between two actions, if any.
    pub delay: Option<u64>,
    /// Whether the pause before the next action has been taken.
    pub rested: bool,
    /// The status lines of the actions injected so far.
    pub results: Seq<Seq<char>>,
}

impl Progress {
    /// The state before anything has been done.
    pub open spec fn fresh(actions: Seq<MouseAction>, delay: Option<u64>) -> Progress {
        Progress { actions, delay, rested: false, results: Seq::empty() }
    }

    /// There are never more status lines than actions.
    pub open spec fn well_formed(self) -> bool {
        self.results.len() <= self.actions.len()
    }

    /// Whether every action has been injected.
    pub open spec fn finished(self) -> bool {
        self.results.len() >= self.actions.len()
    }

    /// Whether a pause is due: a delay is asked for, an action has been
    /// injected, another one follows, and the pause between the two has not
    /// been taken yet.
    pub open spec fn pause_due(self) -> bool {
        &&& self.delay is Some
        &&& 0 < self.results.len() < self.actions.len()
        &&& !self.rested
    }

    /// The command to hand to the driver in this state.
    pub open spec fn command(self) -> Command {
        if self.finished() {
            Command::Finish
        } else if self.pause_due() {
            Command::Pause(self.delay->0)
        } else {
            injection_spec(self.actions[self.results.len() as int])
        }
    }

    /// The state after the driver has performed the command of this state,
    /// with the given outcome. The outcome of a pause counts for nothing.
    pub open spec fn completed(self, outcome: Result<(), InjectionError>) -> Progress {
        if self.finished() {
            self
        } else if self.pause_due() {
            Progress { rested: true, ..self }
        } else {
            Progress {
                rested: false,
                results: self.results.push(
                    status_spec(self.actions[self.results.len() as int], outcome),
                ),
                ..self
            }
        }
    }

    /// The state after the driver has performed one command after another,
    /// with the given outcomes in turn.
    pub open spec fn after(self, outcomes: Seq<Result<(), InjectionError>>) -> Progress
        decreases outcomes.len(),
    {
        if outcomes.len() == 0 {
            self
        } else {
            self.after(outcomes.drop_last()).completed(outcomes.last())
        }
    }
}

/// The commands that carry out a batch, in the order in which the driver
/// gets them: each action's injection, and, where a delay is asked for, a
/// pause between every two of them.
pub open spec fn plan(actions: Seq<MouseAction>, delay: Option<u64>) -> Seq<Command> {
    match delay {
        Some(d) => Seq::new(
            if actions.len() == 0 {
                0
            } else {
                (2 * actions.len() - 1) as nat
            },
            |k: int|
                if k % 2 == 0 {
                    injection_spec(actions[k / 2])
                } else {
                    Command::Pause(d)
                },
        ),
        None => Seq::new(actions.len(), |k: int| injection_spec(actions[k])),
    }
}

/// Where in the plan the injection of action `i` stands.
pub open spec fn injection_index(delay: Option<u64>, i: int) -> int {
    if delay is Some {
        2 * i
    } else {
        i
    }
}

/// The time that a sequence of commands spends in pauses, in milliseconds.
pub open spec fn pause_total(commands: Seq<Command>) -> nat
    decreases commands.len(),
{
    if commands.len() == 0 {
        0
    } else {
        pause_total(commands.drop_last()) + match commands.last() {
            Command::Pause(ms) => ms as nat,
            _ => 0,
        }
    }
}

proof fn lemma_after_prefix(
    actions: Seq<MouseAction>,
    delay: Option<u64>,
    outcomes: Seq<Result<(), InjectionError>>,
)
    requires
        outcomes.len() <= plan(actions, delay).len(),
    ensures
        ({
            let state = Progress::fresh(actions, delay).after(outcomes);
            let k = outcomes.len() as int;
            &&& state.actions == actions
            &&& state.delay == delay
            &&& state.results.len() == if delay is Some {
                (k + 1) / 2
            } else {
                k
            }
            &&& state.rested == (delay is Some && k > 0 && k % 2 == 0)
            &&& forall|i: int|
                0 <= i < state.results.len() ==> state.results[i] == status_spec(
                    actions[i],
                    outcomes[injection_index(delay, i)],
                )
        }),
    decreases outcomes.len(),
{
    if outcomes.len() > 0 {
        let earlier = outcomes.drop_last();
        lemma_after_prefix(actions, delay, earlier);
        let before = Progress::fresh(actions, delay).after(earlier);
        let state = before.completed(outcomes.last());
        assert(state == Progress::fresh(actions, delay).after(outcomes));
        let k = outcomes.len() as int;
        assert forall|i: int| 0 <= i < state.results.len() implies state.results[i] == status_spec(
            actions[i],
            outcomes[injection_index(delay, i)],
        ) by {
            if i < before.results.len() {
                assert(earlier[injection_index(delay, i)] == outcomes[injection_index(delay, i)]);
            }
        }
    }
}

/// The driver is handed the plan of the batch, command by command, and then
/// `Finish`: after it has reported on the first `k` commands of the plan, with
/// whatever outcomes, the command of the state is the plan's next one.
pub proof fn lemma_follows_plan(
    actions: Seq<MouseAction>,
    delay: Option<u64>,
    outcomes: Seq<Result<(), InjectionError>>,
)
    requires
        outcomes.len() <= plan(actions, delay).len(),
    ensures
        Progress::fresh(actions, delay).after(outcomes).well_formed(),
        Progress::fresh(actions, delay).after(outcomes).command() == if outcomes.len() < plan(
            actions,
            delay,
        ).len() {
            plan(actions, delay)[outcomes.len() as int]
        } else {
            Command::Finish
        },
{
    lemma_after_prefix(actions, delay, outcomes);
}

/// One status line for each action, in the order of the actions: when the
/// plan has been carried out, the run is finished, it holds as many lines as
/// the batch has actions, and line `i` is the status of action `i` under the
/// outcome that the driver reported for its injection.
pub proof fn lemma_one_line_per_action(
    actions: Seq<MouseAction>,
    delay: Option<u64>,
    outcomes: Seq<Result<(), InjectionError>>,
)
    requires
        outcomes.len() == plan(actions, delay).len(),
    ensures
        Progress::fresh(actions, delay).after(outcomes).finished(),
        Progress::fresh(actions, delay).after(outcomes).results.len() == actions.len(),
        forall|i: int|
            0 <= i < actions.len() ==> Progress::fresh(actions, delay).after(outcomes).results[i]
                == status_spec(actions[i], outcomes[injection_index(delay, i)]),
{
    lemma_after_prefix(actions, delay, outcomes);
}

proof fn lemma_pause_total_prefix(actions: Seq<MouseAction>, delay: Option<u64>, k: int)
    requires
        0 <= k <= plan(actions, delay).len(),
    ensures
        pause_total(plan(actions, delay).take(k)) == match delay {
            Some(d) => (k / 2) * d,
            None => 0,
        },
    decreases k,
{
    let commands = plan(actions, delay).take(k);
    if k > 0 {
        lemma_pause_total_prefix(actions, delay, k - 1);
        assert(commands.drop_last() =~= plan(actions, delay).take(k - 1));
        assert(commands.last() == plan(actions, delay)[k - 1]);
        match delay {
            Some(d) => {
                if (k - 1) % 2 == 0 {
                    assert(k / 2 == (k - 1) / 2);
                } else {
                    assert(k / 2 == (k - 1) / 2 + 1);
                    assert((k / 2) * d == ((k - 1) / 2) * d + d) by (nonlinear_arith)
                        requires
                            k / 2 == (k - 1) / 2 + 1,
                    ;
                }
            },
            None => {},
        }
    } else {
        assert(commands.len() == 0);
        assert(k / 2 == 0);
        match delay {
            Some(d) => {
                assert((k / 2) * d == 0) by (nonlinear_arith)
                    requires
                        k / 2 == 0,
                ;
            },
            None => {},
        }
    }
}

/// Without a delay the plan is the injections and nothing else: no command
/// in it is a pause, and no time is spent waiting.
pub proof fn lemma_no_delay_no_pause(actions: Seq<MouseAction>)
    ensures
        plan(actions, None).len() == actions.len(),
        forall|k: int|
            0 <= k < actions.len() ==> plan(actions, None)[k] == injection_spec(actions[k]),
        forall|k: int| 0 <= k < actions.len() ==> !(plan(actions, None)[k] is Pause),
        pause_total(plan(actions, None)) == 0,
{
    lemma_pause_total_prefix(actions, None, actions.len() as int);
    assert(plan(actions, None).take(actions.len() as int) =~= plan(actions, None));
}

/// With a delay the pauses stand between the actions, and nowhere else: the
/// plan of N actions, N > 0, has an injection at every even place, counted
/// from 0, and a pause of the given length at every odd place; it starts and
/// ends with an injection, and so holds N - 1 pauses, which add up to
/// (N - 1) times the delay.
pub proof fn lemma_pauses_between_actions(actions: Seq<MouseAction>, delay: u64)
    requires
        actions.len() > 0,
    ensures
        plan(actions, Some(delay)).len() == 2 * actions.len() - 1,
        forall|k: int|
            0 <= k < 2 * actions.len() - 1 ==> #[trigger] plan(actions, Some(delay))[k] == if k % 2
                == 0 {
                injection_spec(actions[k / 2])
            } else {
                Command::Pause(delay)
            },
        !(plan(actions, Some(delay)).first() is Pause),
        !(plan(actions, Some(delay)).last() is Pause),
        pause_total(plan(actions, Some(delay))) == (actions.len() - 1) * delay,
{
    let commands = plan(actions, Some(delay));
    let n = actions.len() as int;
    assert((2 * (n - 1)) % 2 == 0);
    assert(commands.last() == commands[2 * (n - 1)]);
    lemma_pause_total_prefix(actions, Some(delay), 2 * n - 1);
    assert(commands.take(2 * n - 1) =~= commands);
    assert((2 * n - 1) / 2 == n - 1);
}

/// A batch of one action is carried out in one step, with or without a
/// delay: the first command is the injection of the action, and once the
/// driver has reported on it, nothing is left to do and the run holds the
/// status line of the action.
pub proof fn lemma_single_action(
    action: MouseAction,
    delay: Option<u64>,
    outcome: Result<(), InjectionError>,
)
    ensures
        Progress::fresh(seq![action], delay).command() == injection_spec(action),
        Progress::fresh(seq![action], delay).completed(outcome).command() == Command::Finish,
        Progress::fresh(seq![action], delay).completed(outcome).results == seq![
            status_spec(action, outcome),
        ],
{
    let after = Progress::fresh(seq![action], delay).completed(outcome);
    assert(after.results =~= seq![status_spec(action, outcome)]);
}

/// An empty batch has an empty plan, whatever the delay: nothing is
/// injected and nothing is waited for.
pub proof fn lemma_empty_batch(delay: Option<u64>)
    ensures
        plan(Seq::empty(), delay).len() == 0,
        Progress::fresh(Seq::empty(), delay).command() == Command::Finish,
{
}

/// A batch that is being carried out.
pub struct Execution {
    batch: ActionBatch,
    rested: bool,
    results: Vec<String>,
}

impl View for Execution {
    type V = Progress;

    closed spec fn view(&self) -> Progress {
        Progress {
            actions: self.batch.actions@,
            delay: self.batch.delay_between,
            rested: self.rested,
            results: self.results.deep_view(),
        }
    }
}

impl Execution {
    /// Starts on a batch: nothing is injected yet.
    pub fn begin(batch: ActionBatch) -> (run: Execution)
        ensures
            run@ == Progress::fresh(batch@.actions, batch@.delay_between),
            run@.well_formed(),
    {
        let run = Execution { batch, rested: false, results: Vec::new() };
        assert(run.results.deep_view() =~= Seq::<Seq<char>>::empty());
        run
    }

    /// The command to perform now. Asking again without reporting back gives
    /// the same command.
    pub fn command(&self) -> (command: Command)
        ensures
            command == self@.command(),
    {
        let cursor = self.results.len();
        if cursor >= self.batch.actions.len() {
            return Command::Finish;
        }
        match self.batch.delay_between {
            Some(delay) => {
                if cursor > 0 && !self.rested {
                    return Command::Pause(delay);
                }
            },
            None => {},
        }
        injection(&self.batch.actions[cursor])
    }

    /// Reports that the driver has performed the current command. For an
    /// injected action the outcome goes into its status line; after a pause,
    /// or when nothing was left to do, the outcome is ignored.
    pub fn complete(&mut self, outcome: Result<(), InjectionError>)
        ensures
            final(self)@ == old(self)@.completed(outcome),
            old(self)@.well_formed() ==> final(self)@.well_formed(),
    {
        let cursor = self.results.len();
        if cursor >= self.batch.actions.len() {
            return ;
        }
        if self.batch.delay_between.is_some() && cursor > 0 && !self.rested {
            self.rested = true;
            return ;
        }
        let line = status(&self.batch.actions[cursor], &outcome);
        self.results.push(line);
        self.rested = false;
        assert(self.results.deep_view() =~= old(self).results.deep_view().push(line@));
    }

    /// Whether every action has been injected.
    pub fn is_finished(&self) -> (done: bool)
        ensures
            done == self@.finished(),
    {
        self.results.len() >= self.batch.actions.len()
    }

    /// The status lines so far, one for each action injected, in the order
    /// of the actions.
    pub fn results(&self) -> (lines: &Vec<String>)
        ensures
            lines.deep_view() == self@.results,
    {
        &self.results
    }

    /// Ends the run and gives out the status lines.
    pub fn into_results(self) -> (lines: Vec<String>)
        ensures
            lines.deep_view() == self@.results,
    {
        self.results
    }
}

} // verus!
