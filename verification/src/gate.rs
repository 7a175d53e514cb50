//! The confirmation dialogue: a command is shown, and runs only on the
//! user's consent.
//!
//! The dialogue is a state machine. The caller does what an [`Action`] asks
//! for (shows a command, reads a line, asks the backend, runs the shell,
//! writes the cache) and reports what came of it as the next [`Event`].

use vstd::prelude::*;
use crate::cache::PromptCache;
use crate::resolver::ResolveError;
use crate::text::{consents, is_consent};

verus! {

/// How a dialogue ended.
#[derive(Clone, Copy, Debug, PartialEq, Eq, Structural)]
pub enum Outcome {
    /// The user consented and the command was handed to the shell.
    Executed,
    /// The user declined a command that came fresh from the backend.
    Declined,
    /// The user declined a cached command and kept it in the cache.
    DeclinedThenKept,
    /// There is no command to confirm: the backend proposed none, or what
    /// it proposed, or what the cache holds, is the empty string.
    NoCommand,
    /// The prompt could not be resolved.
    Failed,
}

/// Where a dialogue stands.
#[derive(Clone, Debug, PartialEq, Eq)]
pub enum Phase {
    /// Nothing has happened yet.
    Idle,
    /// A command is shown and the user's answer is awaited. Only a command
    /// that is not empty is ever shown.
    Presented { command: String, cached: bool },
    /// A cached command was declined and the user is asked whether to drop
    /// it from the cache.
    AskedToInvalidate,
    /// The backend was asked and its answer is awaited.
    Resolving,
    /// The dialogue is over.
    Finished(Outcome),
}

/// What happened outside since the last step.
#[derive(Debug, PartialEq, Eq)]
pub enum Event {
    /// The run begins.
    Start,
    /// The user typed a line.
    Line(String),
    /// The backend was asked, with this result.
    Resolved(Result<Option<String>, ResolveError>),
}

/// What the caller is to do next.
#[derive(Clone, Debug, PartialEq, Eq)]
pub enum Action {
    /// Show the command, say whether it comes from the cache, ask whether to
    /// run it, and read a line.
    Present { command: String, cached: bool },
    /// Ask whether to drop the cached command, and read a line.
    AskInvalidate,
    /// Ask the backend for a command.
    Resolve,
    /// Run the command through the shell and show what it prints.
    Execute(String),
    /// Write the cache to its file, in full.
    Persist,
    /// Tell the user that nothing was run.
    ReportCancelled,
    /// Tell the user that no command could be generated.
    ReportNoCommand,
    /// Tell the user why the prompt could not be resolved.
    ReportFailure,
}

/// A phase, with text in place of strings.
pub enum PhaseView {
    Idle,
    Presented { command: Seq<char>, cached: bool },
    AskedToInvalidate,
    Resolving,
    Finished(Outcome),
}

/// An event, with text in place of strings and without an error's cause.
pub enum EventView {
    Start,
    Line(Seq<char>),
    Command(Seq<char>),
    NoCommand,
    Failure,
}

/// An action, with text in place of strings.
pub enum ActionView {
    Present { command: Seq<char>, cached: bool },
    AskInvalidate,
    Resolve,
    Execute(Seq<char>),
    Persist,
    ReportCancelled,
    ReportNoCommand,
    ReportFailure,
}

impl View for Phase {
    type V = PhaseView;

    open spec fn view(&self) -> PhaseView {
        match self {
            Phase::Idle => PhaseView::Idle,
            Phase::Presented { command, cached } => PhaseView::Presented {
                command: command@,
                cached: *cached,
            },
            Phase::AskedToInvalidate => PhaseView::AskedToInvalidate,
            Phase::Resolving => PhaseView::Resolving,
            Phase::Finished(outcome) => PhaseView::Finished(*outcome),
        }
    }
}

impl View for Event {
    type V = EventView;

    open spec fn view(&self) -> EventView {
        match self {
            Event::Start => EventView::Start,
            Event::Line(line) => EventView::Line(line@),
            Event::Resolved(Ok(Some(command))) => EventView::Command(command@),
            Event::Resolved(Ok(None)) => EventView::NoCommand,
            Event::Resolved(Err(_)) => EventView::Failure,
        }
    }
}

impl View for Action {
    type V = ActionView;

    open spec fn view(&self) -> ActionView {
        match self {
            Action::Present { command, cached } => ActionView::Present {
                command: command@,
                cached: *cached,
            },
            Action::AskInvalidate => ActionView::AskInvalidate,
            Action::Resolve => ActionView::Resolve,
            Action::Execute(command) => ActionView::Execute(command@),
            Action::Persist => ActionView::Persist,
            Action::ReportCancelled => ActionView::ReportCancelled,
            Action::ReportNoCommand => ActionView::ReportNoCommand,
            Action::ReportFailure => ActionView::ReportFailure,
        }
    }
}

/// The views of a list of actions, in order.
pub open spec fn views_of(actions: Seq<Action>) -> Seq<ActionView> {
    actions.map_values(|action: Action| action@)
}

/// What one step leaves behind: the phase reached, the cache as it is then,
/// and what the caller is to do, in order.
pub struct Turn {
    pub phase: PhaseView,
    pub cache: Map<Seq<char>, Seq<char>>,
    pub actions: Seq<ActionView>,
}

/// The step of the dialogue for `prompt`: what `event` leads to from `phase`
/// with the cache `cache`, where `use_cache` says whether the cache may be
/// consulted. An event that the phase does not await changes nothing. A
/// command that is the empty string is no command: it is neither shown nor
/// cached, and the dialogue ends for want of one.
pub open spec fn turn(
    prompt: Seq<char>,
    use_cache: bool,
    phase: PhaseView,
    cache: Map<Seq<char>, Seq<char>>,
    event: EventView,
) -> Turn {
    match (phase, event) {
        (PhaseView::Idle, EventView::Start) => if use_cache && cache.contains_key(prompt) {
            if cache[prompt].len() > 0 {
                Turn {
                    phase: PhaseView::Presented { command: cache[prompt], cached: true },
                    cache,
                    actions: seq![ActionView::Present { command: cache[prompt], cached: true }],
                }
            } else {
                Turn {
                    phase: PhaseView::Finished(Outcome::NoCommand),
                    cache,
                    actions: seq![ActionView::ReportNoCommand],
                }
            }
        } else {
            Turn { phase: PhaseView::Resolving, cache, actions: seq![ActionView::Resolve] }
        },
        (PhaseView::Presented { command, cached: true }, EventView::Line(line)) => if consents(
            line,
        ) {
            Turn {
                phase: PhaseView::Finished(Outcome::Executed),
                cache,
                actions: seq![ActionView::Execute(command)],
            }
        } else {
            Turn {
                phase: PhaseView::AskedToInvalidate,
                cache,
                actions: seq![ActionView::AskInvalidate],
            }
        },
        (PhaseView::AskedToInvalidate, EventView::Line(line)) => if consents(line) {
            Turn {
                phase: PhaseView::Resolving,
                cache: cache.remove(prompt),
                actions: seq![ActionView::Persist, ActionView::Resolve],
            }
        } else {
            Turn {
                phase: PhaseView::Finished(Outcome::DeclinedThenKept),
                cache,
                actions: seq![ActionView::ReportCancelled],
            }
        },
        (PhaseView::Resolving, EventView::Command(command)) => if command.len() > 0 {
            Turn {
                phase: PhaseView::Presented { command, cached: false },
                cache,
                actions: seq![ActionView::Present { command, cached: false }],
            }
        } else {
            Turn {
                phase: PhaseView::Finished(Outcome::NoCommand),
                cache,
                actions: seq![ActionView::ReportNoCommand],
            }
        },
        (PhaseView::Resolving, EventView::NoCommand) => Turn {
            phase: PhaseView::Finished(Outcome::NoCommand),
            cache,
            actions: seq![ActionView::ReportNoCommand],
        },
        (PhaseView::Resolving, EventView::Failure) => Turn {
            phase: PhaseView::Finished(Outcome::Failed),
            cache,
            actions: seq![ActionView::ReportFailure],
        },
        (PhaseView::Presented { command, cached: false }, EventView::Line(line)) => if consents(
            line,
        ) {
            Turn {
                phase: PhaseView::Finished(Outcome::Executed),
                cache: cache.insert(prompt, command),
                actions: seq![ActionView::Execute(command), ActionView::Persist],
            }
        } else {
            Turn {
                phase: PhaseView::Finished(Outcome::Declined),
                cache: cache.insert(prompt, command),
                actions: seq![ActionView::ReportCancelled, ActionView::Persist],
            }
        },
        _ => Turn { phase, cache, actions: Seq::<ActionView>::empty() },
    }
}

/// The dialogue about one prompt.
#[derive(Clone, Debug)]
pub struct Gate {
    prompt: String,
    use_cache: bool,
    phase: Phase,
}

impl Gate {
    /// The prompt that the dialogue is about.
    pub closed spec fn prompt_text(&self) -> Seq<char> {
        self.prompt@
    }

    /// Whether the cache may be consulted.
    pub closed spec fn consults_cache(&self) -> bool {
        self.use_cache
    }

    /// Where the dialogue stands.
    pub closed spec fn phase_view(&self) -> PhaseView {
        self.phase@
    }

    /// Returns a dialogue about `prompt` that has not begun; `use_cache`
    /// says whether the cache may be consulted.
    pub fn new(prompt: String, use_cache: bool) -> (gate: Gate)
        ensures
            gate.prompt_text() == prompt@,
            gate.consults_cache() == use_cache,
            gate.phase_view() == PhaseView::Idle,
    {
        Gate { prompt, use_cache, phase: Phase::Idle }
    }

    /// Returns where the dialogue stands.
    pub fn phase(&self) -> (phase: &Phase)
        ensures
            phase@ == self.phase_view(),
    {
        &self.phase
    }

    /// Returns the prompt that the dialogue is about.
    pub fn prompt(&self) -> (prompt: &String)
        ensures
            prompt@ == self.prompt_text(),
    {
        &self.prompt
    }

    /// Returns the outcome, once the dialogue is over.
    pub fn outcome(&self) -> (outcome: Option<Outcome>)
        ensures
            outcome == match self.phase_view() {
                PhaseView::Finished(o) => Some(o),
                _ => None,
            },
    {
        match &self.phase {
            Phase::Finished(o) => Some(*o),
            _ => None,
        }
    }

    /// Takes the dialogue one step further on `event`, changes `cache` as
    /// the step demands, and returns what the caller is to do next, in
    /// order.
    pub fn step(&mut self, cache: &mut PromptCache, event: Event) -> (actions: Vec<Action>)
        requires
            old(cache).wf(),
        ensures
            final(cache).wf(),
            final(self).prompt_text() == old(self).prompt_text(),
            final(self).consults_cache() == old(self).consults_cache(),
            turn(
                old(self).prompt_text(),
                old(self).consults_cache(),
                old(self).phase_view(),
                old(cache)@,
                event@,
            ) == (Turn {
                phase: final(self).phase_view(),
                cache: final(cache)@,
                actions: views_of(actions@),
            }),
    {
        let mut actions: Vec<Action> = Vec::new();
        let ghost before = turn(
            self.prompt_text(),
            self.consults_cache(),
            self.phase_view(),
            cache@,
            event@,
        );
        match (&self.phase, event) {
            (Phase::Idle, Event::Start) => {
                let cached = if self.use_cache {
                    cache.get(self.prompt.as_str())
                } else {
                    None
                };
                match cached {
                    Some(command) => {
                        if command.as_str().is_empty() {
                            actions.push(Action::ReportNoCommand);
                            self.phase = Phase::Finished(Outcome::NoCommand);
                        } else {
                            actions.push(
                                Action::Present { command: command.clone(), cached: true },
                            );
                            self.phase = Phase::Presented { command, cached: true };
                        }
                    },
                    None => {
                        actions.push(Action::Resolve);
                        self.phase = Phase::Resolving;
                    },
                }
            },
            (Phase::Presented { command, cached }, Event::Line(line)) => {
                let command = command.clone();
                let cached = *cached;
                let yes = is_consent(line.as_str());
                if cached {
                    if yes {
                        actions.push(Action::Execute(command));
                        self.phase = Phase::Finished(Outcome::Executed);
                    } else {
                        actions.push(Action::AskInvalidate);
                        self.phase = Phase::AskedToInvalidate;
                    }
                } else {
                    cache.insert(self.prompt.clone(), command.clone());
                    if yes {
                        actions.push(Action::Execute(command));
                        self.phase = Phase::Finished(Outcome::Executed);
                    } else {
                        actions.push(Action::ReportCancelled);
                        self.phase = Phase::Finished(Outcome::Declined);
                    }
                    actions.push(Action::Persist);
                }
            },
            (Phase::AskedToInvalidate, Event::Line(line)) => {
                if is_consent(line.as_str()) {
                    cache.remove(self.prompt.as_str());
                    actions.push(Action::Persist);
                    actions.push(Action::Resolve);
                    self.phase = Phase::Resolving;
                } else {
                    actions.push(Action::ReportCancelled);
                    self.phase = Phase::Finished(Outcome::DeclinedThenKept);
                }
            },
            (Phase::Resolving, Event::Resolved(Ok(Some(command)))) => {
                if command.as_str().is_empty() {
                    actions.push(Action::ReportNoCommand);
                    self.phase = Phase::Finished(Outcome::NoCommand);
                } else {
                    actions.push(Action::Present { command: command.clone(), cached: false });
                    self.phase = Phase::Presented { command, cached: false };
                }
            },
            (Phase::Resolving, Event::Resolved(Ok(None))) => {
                actions.push(Action::ReportNoCommand);
                self.phase = Phase::Finished(Outcome::NoCommand);
            },
            (Phase::Resolving, Event::Resolved(Err(_))) => {
                actions.push(Action::ReportFailure);
                self.phase = Phase::Finished(Outcome::Failed);
            },
            _ => {},
        }
        assert(views_of(actions@) =~= before.actions);
        actions
    }
}

/// How often a list of actions asks the backend.
pub open spec fn backend_calls(actions: Seq<ActionView>) -> nat
    decreases actions.len(),
{
    if actions.len() == 0 {
        0
    } else {
        backend_calls(actions.drop_last()) + if actions.last() is Resolve {
            1nat
        } else {
            0nat
        }
    }
}

/// Asking the backend is counted through lists put end to end.
pub proof fn lemma_backend_calls_add(front: Seq<ActionView>, back: Seq<ActionView>)
    ensures
        backend_calls(front + back) == backend_calls(front) + backend_calls(back),
    decreases back.len(),
{
    if back.len() == 0 {
        assert(front + back =~= front);
    } else {
        assert((front + back).drop_last() =~= front + back.drop_last());
        lemma_backend_calls_add(front, back.drop_last());
    }
}

/// A list of one action asks the backend once if the action is to ask it,
/// and never otherwise.
pub proof fn lemma_backend_calls_single(action: ActionView)
    ensures
        backend_calls(seq![action]) == if action is Resolve {
            1nat
        } else {
            0nat
        },
{
    assert(seq![action].drop_last() =~= Seq::<ActionView>::empty());
    assert(backend_calls(seq![action].drop_last()) == 0);
}

/// A list of two actions asks the backend as often as its two actions
/// together.
pub proof fn lemma_backend_calls_pair(first: ActionView, second: ActionView)
    ensures
        backend_calls(seq![first, second]) == backend_calls(seq![first]) + backend_calls(
            seq![second],
        ),
{
    assert(seq![first, second] =~= seq![first] + seq![second]);
    lemma_backend_calls_add(seq![first], seq![second]);
}

/// Two runs in a row on a prompt that the cache does not hold, with the
/// cache in use, ask the backend once between them, when the backend
/// proposes a command. The first run misses, asks, and caches the answer
/// whatever the user says to it; the second finds that answer in the cache
/// and shows it without asking anybody.
pub proof fn lemma_second_run_is_served_by_cache(
    prompt: Seq<char>,
    cache: Map<Seq<char>, Seq<char>>,
    command: Seq<char>,
    answer: Seq<char>,
)
    requires
        !cache.contains_key(prompt),
        command.len() > 0,
    ensures
        ({
            let asked = turn(prompt, true, PhaseView::Idle, cache, EventView::Start);
            let shown = turn(prompt, true, asked.phase, asked.cache, EventView::Command(command));
            let closed = turn(prompt, true, shown.phase, shown.cache, EventView::Line(answer));
            let again = turn(prompt, true, PhaseView::Idle, closed.cache, EventView::Start);
            &&& asked.phase == PhaseView::Resolving
            &&& asked.cache == cache
            &&& closed.phase is Finished
            &&& closed.cache == cache.insert(prompt, command)
            &&& again.phase == (PhaseView::Presented { command, cached: true })
            &&& again.cache == closed.cache
            &&& backend_calls(asked.actions + shown.actions + closed.actions + again.actions)
                == 1
        }),
{
    let asked = turn(prompt, true, PhaseView::Idle, cache, EventView::Start);
    let shown = turn(prompt, true, asked.phase, asked.cache, EventView::Command(command));
    let closed = turn(prompt, true, shown.phase, shown.cache, EventView::Line(answer));
    let again = turn(prompt, true, PhaseView::Idle, closed.cache, EventView::Start);
    lemma_backend_calls_single(ActionView::Resolve);
    lemma_backend_calls_single(ActionView::Present { command, cached: false });
    lemma_backend_calls_single(ActionView::Present { command, cached: true });
    lemma_backend_calls_single(ActionView::Execute(command));
    lemma_backend_calls_single(ActionView::ReportCancelled);
    lemma_backend_calls_single(ActionView::Persist);
    lemma_backend_calls_pair(ActionView::Execute(command), ActionView::Persist);
    lemma_backend_calls_pair(ActionView::ReportCancelled, ActionView::Persist);
    lemma_backend_calls_add(asked.actions, shown.actions);
    lemma_backend_calls_add(asked.actions + shown.actions, closed.actions);
    lemma_backend_calls_add(asked.actions + shown.actions + closed.actions, again.actions);
}

/// Declining a cached command leaves the cache as it was, and so does every
/// answer to the question that follows but consent to drop the entry.
pub proof fn lemma_declined_entry_is_kept(
    prompt: Seq<char>,
    use_cache: bool,
    cache: Map<Seq<char>, Seq<char>>,
    command: Seq<char>,
    first_answer: Seq<char>,
    second_answer: Seq<char>,
)
    requires
        !consents(second_answer),
    ensures
        ({
            let declined = turn(
                prompt,
                use_cache,
                PhaseView::Presented { command, cached: true },
                cache,
                EventView::Line(first_answer),
            );
            let kept = turn(
                prompt,
                use_cache,
                declined.phase,
                declined.cache,
                EventView::Line(second_answer),
            );
            &&& declined.cache == cache
            &&& kept.cache == cache
            &&& backend_calls(declined.actions) == 0
            &&& backend_calls(kept.actions) == 0
            &&& !consents(first_answer) ==> kept.phase == PhaseView::Finished(
                Outcome::DeclinedThenKept,
            )
        }),
{
    lemma_backend_calls_single(ActionView::Execute(command));
    lemma_backend_calls_single(ActionView::AskInvalidate);
    lemma_backend_calls_single(ActionView::ReportCancelled);
}

/// Consent to drop a cached entry removes the prompt's entry and no other,
/// and asks the backend exactly once.
pub proof fn lemma_invalidation_drops_one_entry(
    prompt: Seq<char>,
    use_cache: bool,
    cache: Map<Seq<char>, Seq<char>>,
    answer: Seq<char>,
)
    requires
        consents(answer),
    ensures
        ({
            let dropped = turn(
                prompt,
                use_cache,
                PhaseView::AskedToInvalidate,
                cache,
                EventView::Line(answer),
            );
            &&& !dropped.cache.contains_key(prompt)
            &&& forall|other: Seq<char>|
                other != prompt ==> (#[trigger] dropped.cache.contains_key(other)
                    == cache.contains_key(other))
            &&& forall|other: Seq<char>|
                other != prompt && cache.contains_key(other) ==> #[trigger] dropped.cache[other]
                    == cache[other]
            &&& dropped.phase == PhaseView::Resolving
            &&& backend_calls(dropped.actions) == 1
        }),
{
    lemma_backend_calls_single(ActionView::Persist);
    lemma_backend_calls_single(ActionView::Resolve);
    lemma_backend_calls_pair(ActionView::Persist, ActionView::Resolve);
}

/// With the cache switched off a run does not look at it: whatever it
/// holds, the run begins by asking the backend. The cache stays as it was
/// through the whole run when the backend proposes no command, or the empty
/// one.
pub proof fn lemma_disabled_cache_is_left_alone(
    prompt: Seq<char>,
    cache: Map<Seq<char>, Seq<char>>,
    reply: EventView,
    answer: Seq<char>,
)
    requires
        reply is NoCommand || reply is Failure || reply == EventView::Command(
            Seq::<char>::empty(),
        ),
    ensures
        ({
            let asked = turn(prompt, false, PhaseView::Idle, cache, EventView::Start);
            let told = turn(prompt, false, asked.phase, asked.cache, reply);
            let after = turn(prompt, false, told.phase, told.cache, EventView::Line(answer));
            &&& asked.phase == PhaseView::Resolving
            &&& asked.actions == seq![ActionView::Resolve]
            &&& asked.cache == cache
            &&& told.phase is Finished
            &&& told.cache == cache
            &&& after.cache == cache
        }),
{
}

/// A command is handed to the shell only at the step at which the user
/// consents to it: it is the command that was shown, and the line just
/// typed gives consent.
pub proof fn lemma_execution_needs_consent(
    prompt: Seq<char>,
    use_cache: bool,
    phase: PhaseView,
    cache: Map<Seq<char>, Seq<char>>,
    event: EventView,
    command: Seq<char>,
)
    requires
        turn(prompt, use_cache, phase, cache, event).actions.contains(
            ActionView::Execute(command),
        ),
    ensures
        phase matches PhaseView::Presented { command: shown, .. } && shown == command,
        event matches EventView::Line(line) && consents(line),
        turn(prompt, use_cache, phase, cache, event).phase == PhaseView::Finished(
            Outcome::Executed,
        ),
{
    let actions = turn(prompt, use_cache, phase, cache, event).actions;
    let i = choose|i: int| 0 <= i < actions.len() && actions[i] == ActionView::Execute(command);
    assert(actions[i] == ActionView::Execute(command));
}

/// No step touches what the cache holds for another prompt.
pub proof fn lemma_other_entries_stay(
    prompt: Seq<char>,
    use_cache: bool,
    phase: PhaseView,
    cache: Map<Seq<char>, Seq<char>>,
    event: EventView,
    other: Seq<char>,
)
    requires
        other != prompt,
    ensures
        turn(prompt, use_cache, phase, cache, event).cache.contains_key(other)
            == cache.contains_key(other),
        cache.contains_key(other) ==> turn(prompt, use_cache, phase, cache, event).cache[other]
            == cache[other],
{
}

/// Whether a phase shows no empty command.
pub open spec fn shows_a_command(phase: PhaseView) -> bool {
    phase matches PhaseView::Presented { command, .. } ==> command.len() > 0
}

/// The empty string is never treated as a command. From a phase that shows
/// none, no step shows the empty command, hands it to the shell, or caches
/// it: after the step the cache holds an empty command for a prompt only
/// where it held one before.
pub proof fn lemma_empty_command_is_no_command(
    prompt: Seq<char>,
    use_cache: bool,
    phase: PhaseView,
    cache: Map<Seq<char>, Seq<char>>,
    event: EventView,
)
    requires
        shows_a_command(phase),
    ensures
        ({
            let next = turn(prompt, use_cache, phase, cache, event);
            let empty = Seq::<char>::empty();
            &&& shows_a_command(next.phase)
            &&& !next.actions.contains(ActionView::Present { command: empty, cached: true })
            &&& !next.actions.contains(ActionView::Present { command: empty, cached: false })
            &&& !next.actions.contains(ActionView::Execute(empty))
            &&& forall|key: Seq<char>| #[trigger]
                next.cache.contains_key(key) && next.cache[key].len() == 0 ==> cache.contains_key(
                    key,
                ) && cache[key].len() == 0
        }),
{
    let next = turn(prompt, use_cache, phase, cache, event);
    let empty = Seq::<char>::empty();
    assert(empty.len() == 0);
    assert forall|action: ActionView| #[trigger] next.actions.contains(action) implies action
        != (ActionView::Present { command: empty, cached: true }) && action != (
    ActionView::Present { command: empty, cached: false }) && action != ActionView::Execute(
        empty,
    ) by {
        let i = choose|i: int| 0 <= i < next.actions.len() && next.actions[i] == action;
        assert(next.actions[i] == action);
    }
}

/// A reply that holds the empty string ends the dialogue for want of a
/// command: nothing is shown, nothing is run, and the cache stays as it
/// was and is not written.
pub proof fn lemma_empty_reply_ends_the_run(
    prompt: Seq<char>,
    use_cache: bool,
    cache: Map<Seq<char>, Seq<char>>,
)
    ensures
        turn(
            prompt,
            use_cache,
            PhaseView::Resolving,
            cache,
            EventView::Command(Seq::<char>::empty()),
        ) == (Turn {
            phase: PhaseView::Finished(Outcome::NoCommand),
            cache,
            actions: seq![ActionView::ReportNoCommand],
        }),
{
}

} // verus!
