//! One switch of all displays, as a sequence of steps. The session says
//! which action is to be performed next; the caller performs it and hands
//! back what came of it.

use vstd::prelude::*;

use crate::configuration::{copy_of, text_of, Configuration, SwitchDirection};
use crate::display_control::{
    identities, identity_of, try_switch_display, write_needed, DisplayInfo, Platform,
    RETRY_DELAY_MS,
};
use crate::input_source::InputSource;
use crate::text::texts_of;

verus! {

/// What is to be done for one display: the input to switch it to and the
/// command to run afterwards, as far as either is set.
#[derive(Debug)]
pub struct DisplayTask {
    pub name: String,
    pub input: Option<InputSource>,
    pub command: Option<String>,
}

/// `DisplayTask` with its texts as character sequences.
pub struct DisplayTaskView {
    pub name: Seq<char>,
    pub input: Option<InputSource>,
    pub command: Option<Seq<char>>,
}

impl View for DisplayTask {
    type V = DisplayTaskView;

    open spec fn view(&self) -> DisplayTaskView {
        DisplayTaskView { name: self.name@, input: self.input, command: text_of(self.command) }
    }
}

/// Where a session stands.
#[derive(Clone, Copy, Debug, PartialEq, Eq, Structural)]
pub enum Stage {
    /// The displays are to be woken.
    Waking,
    /// The displays are to be listed.
    Listing,
    /// The first listing was empty; the displays are to be listed once more.
    ListingAgain,
    /// The current display is to be asked for its input.
    Reading,
    /// The input is to be written to the current display.
    Writing,
    /// The command of the current display is to be run.
    DisplayCommand,
    /// The command for all displays is to be run.
    GlobalCommand,
    /// Every display has been dealt with.
    Finished,
    /// No display was found, even at the second listing.
    Abandoned,
}

/// How a session ended.
#[derive(Clone, Copy, Debug, PartialEq, Eq, Structural)]
pub enum Outcome {
    /// Every display has been dealt with.
    Switched,
    /// No display was found.
    NoDisplays,
}

/// What the caller is to do next.
#[derive(Debug)]
pub enum Action {
    /// Wake the displays, without waiting for it to be done.
    WakeDisplays,
    /// List the displays.
    Enumerate,
    /// Warn that no display was found, wait, and list the displays again.
    RetryAfter { millis: u64 },
    /// Ask the display at this place in the listing for its current input.
    ReadInput { display: usize },
    /// Write the input value to the display at this place in the listing.
    WriteInput { display: usize, value: u16 },
    /// Run the command line.
    RunCommand { command: String },
    /// Nothing: the session is over.
    Finish { outcome: Outcome },
}

/// `Action` with its texts as character sequences.
pub enum ActionView {
    WakeDisplays,
    Enumerate,
    RetryAfter { millis: u64 },
    ReadInput { display: int },
    WriteInput { display: int, value: u16 },
    RunCommand { command: Seq<char> },
    Finish { outcome: Outcome },
}

impl View for Action {
    type V = ActionView;

    open spec fn view(&self) -> ActionView {
        match *self {
            Action::WakeDisplays => ActionView::WakeDisplays,
            Action::Enumerate => ActionView::Enumerate,
            Action::RetryAfter { millis } => ActionView::RetryAfter { millis },
            Action::ReadInput { display } => ActionView::ReadInput { display: display as int },
            Action::WriteInput { display, value } => ActionView::WriteInput {
                display: display as int,
                value,
            },
            Action::RunCommand { command } => ActionView::RunCommand { command: command@ },
            Action::Finish { outcome } => ActionView::Finish { outcome },
        }
    }
}

/// What came of an action.
#[derive(Debug)]
pub enum Event {
    /// The waking of the displays was started.
    WakeStarted,
    /// The displays were listed: these were found, in this order.
    Enumerated(Vec<DisplayInfo>),
    /// The display was asked for its input: its answer, `None` if the
    /// question failed.
    InputRead(Option<u16>),
    /// The input was written; whether the write succeeded.
    InputWritten(bool),
    /// The command line was run.
    CommandRan,
}

/// A session: the settings it works with, where it stands, and what is to be
/// done for each display once they are listed.
pub struct SwitchSession<'a> {
    config: &'a Configuration,
    direction: SwitchDirection,
    platform: Platform,
    stage: Stage,
    position: usize,
    tasks: Vec<DisplayTask>,
}

/// The state of a session.
pub struct SessionView {
    pub config: Configuration,
    pub direction: SwitchDirection,
    pub platform: Platform,
    pub stage: Stage,
    pub position: int,
    pub tasks: Seq<DisplayTaskView>,
}

/// What is to be done for the display named `name`.
pub open spec fn task_for(config: Configuration, direction: SwitchDirection, name: Seq<char>)
    -> DisplayTaskView {
    DisplayTaskView {
        name,
        input: config.resolve(name).source(direction),
        command: config.resolve(name).execute_command(direction),
    }
}

/// What is to be done for each of the displays, in the order of the
/// listing, each under its identity within the listing.
pub open spec fn tasks_for(
    config: Configuration,
    direction: SwitchDirection,
    platform: Platform,
    displays: Seq<DisplayInfo>,
) -> Seq<DisplayTaskView> {
    Seq::new(
        displays.len(),
        |i: int| task_for(config, direction, identities(displays, platform)[i]),
    )
}

/// The views of a sequence of tasks.
pub open spec fn task_views(tasks: Seq<DisplayTask>) -> Seq<DisplayTaskView> {
    Seq::new(tasks.len(), |i: int| tasks[i]@)
}

/// The command that runs once for all displays.
pub open spec fn global_command(config: Configuration, direction: SwitchDirection) -> Option<
    Seq<char>,
> {
    config.default_input_sources@.execute_command(direction)
}

/// Where a session stands when the displays from place `i` on are still to
/// be dealt with: at the first of them that has an input to switch to or a
/// command to run; after the last, at the command for all displays, or at
/// the end if there is none.
pub open spec fn settle(tasks: Seq<DisplayTaskView>, global: Option<Seq<char>>, i: int) -> (
    Stage,
    int,
)
    decreases tasks.len() - i,
{
    if i < 0 || i >= tasks.len() {
        if global is Some {
            (Stage::GlobalCommand, tasks.len() as int)
        } else {
            (Stage::Finished, tasks.len() as int)
        }
    } else if tasks[i].input is Some {
        (Stage::Reading, i)
    } else if tasks[i].command is Some {
        (Stage::DisplayCommand, i)
    } else {
        settle(tasks, global, i + 1)
    }
}

/// Where a session stands once the input of the display at place `i` is
/// dealt with: at its command, if it has one, else at what follows.
pub open spec fn after_input(tasks: Seq<DisplayTaskView>, global: Option<Seq<char>>, i: int) -> (
    Stage,
    int,
) {
    if 0 <= i < tasks.len() && tasks[i].command is Some {
        (Stage::DisplayCommand, i)
    } else {
        settle(tasks, global, i + 1)
    }
}

impl SessionView {
    /// The command that runs once for all displays.
    pub open spec fn global(self) -> Option<Seq<char>> {
        global_command(self.config, self.direction)
    }

    /// This state at another stage and place.
    pub open spec fn at(self, to: (Stage, int)) -> SessionView {
        SessionView { stage: to.0, position: to.1, ..self }
    }

    /// This state once a listing found `displays`, not none: the tasks are
    /// set, and the session stands at the first thing to do.
    pub open spec fn listed(self, displays: Seq<DisplayInfo>) -> SessionView {
        let tasks = tasks_for(self.config, self.direction, self.platform, displays);
        SessionView { tasks, ..self }.at(settle(tasks, self.global(), 0))
    }

    /// Whether the state is one that a session can be in.
    pub open spec fn wf(self) -> bool {
        match self.stage {
            Stage::Waking | Stage::Listing | Stage::ListingAgain | Stage::Abandoned => {
                self.tasks.len() == 0 && self.position == 0
            },
            Stage::Reading | Stage::Writing => {
                0 <= self.position < self.tasks.len() && self.tasks[self.position].input is Some
            },
            Stage::DisplayCommand => {
                0 <= self.position < self.tasks.len() && self.tasks[self.position].command is Some
            },
            Stage::GlobalCommand => self.position == self.tasks.len() && self.global() is Some,
            Stage::Finished => self.position == self.tasks.len(),
        }
    }

    /// The action that the session waits for.
    pub open spec fn pending(self) -> ActionView {
        match self.stage {
            Stage::Waking => ActionView::WakeDisplays,
            Stage::Listing => ActionView::Enumerate,
            Stage::ListingAgain => ActionView::RetryAfter { millis: RETRY_DELAY_MS },
            Stage::Reading => ActionView::ReadInput { display: self.position },
            Stage::Writing => ActionView::WriteInput {
                display: self.position,
                value: self.tasks[self.position].input.unwrap().value_spec(),
            },
            Stage::DisplayCommand => ActionView::RunCommand {
                command: self.tasks[self.position].command.unwrap(),
            },
            Stage::GlobalCommand => ActionView::RunCommand { command: self.global().unwrap() },
            Stage::Finished => ActionView::Finish { outcome: Outcome::Switched },
            Stage::Abandoned => ActionView::Finish { outcome: Outcome::NoDisplays },
        }
    }

    /// The state after `event`. An event that does not answer the pending
    /// action changes nothing.
    pub open spec fn next(self, event: Event) -> SessionView {
        let tasks = self.tasks;
        let global = self.global();
        match (self.stage, event) {
            (Stage::Waking, Event::WakeStarted) => self.at((Stage::Listing, 0)),
            (Stage::Listing, Event::Enumerated(displays)) => if displays.len() == 0 {
                self.at((Stage::ListingAgain, 0))
            } else {
                self.listed(displays@)
            },
            (Stage::ListingAgain, Event::Enumerated(displays)) => if displays.len() == 0 {
                self.at((Stage::Abandoned, 0))
            } else {
                self.listed(displays@)
            },
            (Stage::Reading, Event::InputRead(reading)) => if write_needed(
                reading,
                tasks[self.position].input.unwrap(),
            ) {
                self.at((Stage::Writing, self.position))
            } else {
                self.at(after_input(tasks, global, self.position))
            },
            (Stage::Writing, Event::InputWritten(_)) => self.at(
                after_input(tasks, global, self.position),
            ),
            (Stage::DisplayCommand, Event::CommandRan) => self.at(
                settle(tasks, global, self.position + 1),
            ),
            (Stage::GlobalCommand, Event::CommandRan) => self.at(
                (Stage::Finished, tasks.len() as int),
            ),
            _ => self,
        }
    }
}

/// Whether `settle` arrives where it should when started from place `i`:
/// at or after that place, at a display that has something to do or past
/// the last one, and every display it passed over has neither an input to
/// switch to nor a command to run.
pub open spec fn settles(tasks: Seq<DisplayTaskView>, global: Option<Seq<char>>, i: int) -> bool {
    let (stage, at) = settle(tasks, global, i);
    &&& i <= at <= tasks.len()
    &&& stage == Stage::Reading ==> at < tasks.len() && tasks[at].input is Some
    &&& stage == Stage::DisplayCommand ==> at < tasks.len() && tasks[at].input is None
        && tasks[at].command is Some
    &&& stage == Stage::GlobalCommand ==> at == tasks.len() && global is Some
    &&& stage == Stage::Finished ==> at == tasks.len() && global is None
    &&& stage == Stage::Reading || stage == Stage::DisplayCommand || stage == Stage::GlobalCommand
        || stage == Stage::Finished
    &&& forall|k: int|
        i <= k < at ==> (#[trigger] tasks[k]).input is None && tasks[k].command is None
}

/// `settle` arrives where it should, from every place.
pub proof fn lemma_settle(tasks: Seq<DisplayTaskView>, global: Option<Seq<char>>, i: int)
    requires
        0 <= i <= tasks.len(),
    ensures
        settles(tasks, global, i),
    decreases tasks.len() - i,
{
    if i < tasks.len() && tasks[i].input is None && tasks[i].command is None {
        lemma_settle(tasks, global, i + 1);
    }
}

/// `settle` arrives where it should wherever a step from `s` may call on
/// it: after the current display, and at the start of a new listing.
proof fn lemma_settle_around(s: SessionView, event: Event)
    ensures
        0 <= s.position < s.tasks.len() ==> settles(s.tasks, s.global(), s.position + 1),
        event matches Event::Enumerated(displays) ==> settles(
            tasks_for(s.config, s.direction, s.platform, displays@),
            s.global(),
            0,
        ),
{
    if 0 <= s.position < s.tasks.len() {
        lemma_settle(s.tasks, s.global(), s.position + 1);
    }
    if let Event::Enumerated(displays) = event {
        lemma_settle(tasks_for(s.config, s.direction, s.platform, displays@), s.global(), 0);
    }
}

/// How far a session has come: the stages before the listing count from
/// nought, each display counts three steps, and the end counts most.
pub open spec fn progress(s: SessionView) -> int {
    match s.stage {
        Stage::Waking => 0,
        Stage::Listing => 1,
        Stage::ListingAgain => 2,
        Stage::Reading => 3 + 3 * s.position,
        Stage::Writing => 4 + 3 * s.position,
        Stage::DisplayCommand => 5 + 3 * s.position,
        Stage::GlobalCommand => 3 + 3 * (s.tasks.len() as int),
        Stage::Finished => 4 + 3 * (s.tasks.len() as int),
        Stage::Abandoned => 4 + 3 * (s.tasks.len() as int),
    }
}

/// A step leads from a state that a session can be in to another such
/// state, and the settings, the direction and the platform stay.
pub proof fn lemma_next_wf(s: SessionView, event: Event)
    requires
        s.wf(),
    ensures
        s.next(event).wf(),
        s.next(event).config == s.config,
        s.next(event).direction == s.direction,
        s.next(event).platform == s.platform,
        s.stage != Stage::Listing && s.stage != Stage::ListingAgain ==> s.next(event).tasks
            == s.tasks,
{
    lemma_settle_around(s, event);
}

/// Every step either changes nothing or takes the session further: no
/// stage is entered twice, displays are dealt with in the order of the
/// listing, and a session that is over stays over.
pub proof fn lemma_step_advances(s: SessionView, event: Event)
    requires
        s.wf(),
    ensures
        s.next(event) == s || progress(s.next(event)) > progress(s),
        s.next(event).position >= s.position,
        s.stage == Stage::Finished || s.stage == Stage::Abandoned ==> s.next(event) == s,
{
    lemma_settle_around(s, event);
}

/// The state of a session after a sequence of events, taken in one after
/// the other.
pub open spec fn run(s: SessionView, events: Seq<Event>) -> SessionView
    decreases events.len(),
{
    if events.len() == 0 {
        s
    } else {
        run(s, events.drop_last()).next(events.last())
    }
}

/// Whatever events come in, a session stays in states that a session can
/// be in.
pub proof fn lemma_run_wf(s: SessionView, events: Seq<Event>)
    requires
        s.wf(),
    ensures
        run(s, events).wf(),
    decreases events.len(),
{
    if events.len() > 0 {
        lemma_run_wf(s, events.drop_last());
        lemma_next_wf(run(s, events.drop_last()), events.last());
    }
}

/// A session never returns to a state it has left. Between any two moments
/// of any run it has either stayed as it was or come further. So each
/// action is asked for during one stretch of the run only: the displays
/// are woken once, listing is tried again at most once, each display is
/// read at most once and written to at most once, and each command is run
/// once.
pub proof fn lemma_never_returns(s: SessionView, events: Seq<Event>, j: int)
    requires
        s.wf(),
        0 <= j <= events.len(),
    ensures
        progress(run(s, events.take(j))) <= progress(run(s, events)),
        progress(run(s, events.take(j))) == progress(run(s, events)) ==> run(s, events.take(j))
            == run(s, events),
    decreases events.len() - j,
{
    if j == events.len() {
        assert(events.take(j) =~= events);
    } else {
        let before = events.drop_last();
        assert(before.take(j) =~= events.take(j));
        lemma_never_returns(s, before, j);
        lemma_run_wf(s, before);
        lemma_step_advances(run(s, before), events.last());
    }
}

/// Listing is tried again once and only once. After a first empty listing
/// the session asks for a second one after the delay. It then works with
/// what the second listing found, exactly as if the first had found it; if
/// the second is empty too, the session is abandoned. No other step leads
/// to a second listing.
pub proof fn lemma_retry_once(
    s: SessionView,
    none: Vec<DisplayInfo>,
    found: Vec<DisplayInfo>,
    any: Event,
)
    requires
        s.wf(),
    ensures
        s.stage == Stage::Listing && none.len() == 0 ==> {
            let waiting = s.next(Event::Enumerated(none));
            &&& waiting.stage == Stage::ListingAgain
            &&& waiting.pending() == ActionView::RetryAfter { millis: RETRY_DELAY_MS }
            &&& found.len() == 0 ==> waiting.next(Event::Enumerated(found)).pending()
                == ActionView::Finish { outcome: Outcome::NoDisplays }
            &&& found.len() > 0 ==> waiting.next(Event::Enumerated(found)) == s.listed(found@)
            &&& found.len() > 0 ==> waiting.next(Event::Enumerated(found)) == s.next(
                Event::Enumerated(found),
            )
        },
        s.next(any).stage == Stage::ListingAgain ==> s.stage == Stage::ListingAgain || s.stage
            == Stage::Listing,
        s.stage == Stage::ListingAgain ==> s.next(any) == s || s.next(any).stage
            != Stage::ListingAgain,
{
    lemma_settle_around(s, Event::Enumerated(found));
    lemma_settle_around(s, any);
}

/// What a session does about the input of one display. A display that
/// answers with the input it is to be switched to is not written to; any
/// other answer, and no answer at all, leads to the write. Whether the write
/// succeeds makes no difference to what follows.
pub proof fn lemma_read_before_write(s: SessionView, reading: Option<u16>)
    requires
        s.wf(),
        s.stage == Stage::Reading,
    ensures
        ({
            let input = s.tasks[s.position].input.unwrap();
            let after = s.next(Event::InputRead(reading));
            &&& write_needed(reading, input) ==> after.pending() == ActionView::WriteInput {
                display: s.position,
                value: input.value_spec(),
            }
            &&& !write_needed(reading, input) ==> !(after.pending() is WriteInput)
            &&& reading is None ==> after.stage == Stage::Writing
            &&& after.stage == Stage::Writing ==> after.next(Event::InputWritten(true))
                == after.next(Event::InputWritten(false))
        }),
{
    lemma_settle_around(s, Event::InputRead(reading));
}

/// A failure stays with the display it happens at. Whether a write succeeds
/// or fails, in whatever state the session is, what follows is the same:
/// the command of that display if it has one, then the next display. A
/// display that cannot be read is written to. Neither failure ends the
/// session.
pub proof fn lemma_failures_are_isolated(s: SessionView)
    requires
        s.wf(),
    ensures
        s.next(Event::InputWritten(false)) == s.next(Event::InputWritten(true)),
        s.stage == Stage::Writing ==> s.next(Event::InputWritten(false)) == s.at(
            after_input(s.tasks, s.global(), s.position),
        ),
        s.stage == Stage::Writing && s.tasks[s.position].command is Some ==> s.next(
            Event::InputWritten(false),
        ).pending() == (ActionView::RunCommand { command: s.tasks[s.position].command.unwrap() }),
        s.stage == Stage::Reading ==> s.next(Event::InputRead(None)).pending()
            == (ActionView::WriteInput {
            display: s.position,
            value: s.tasks[s.position].input.unwrap().value_spec(),
        }),
        s.next(Event::InputWritten(false)).stage == Stage::Abandoned ==> s.stage
            == Stage::Abandoned,
        s.next(Event::InputRead(None)).stage == Stage::Abandoned ==> s.stage == Stage::Abandoned,
{
    lemma_settle_around(s, Event::InputWritten(false));
}

/// The command for all displays runs once in a session that deals with its
/// displays, after the last display, however many displays there are and
/// whatever is set for them. A session comes to its end through that
/// command if there is one, and past it only if there is none.
pub proof fn lemma_global_command_once(s: SessionView, event: Event)
    requires
        s.wf(),
    ensures
        s.stage == Stage::GlobalCommand ==> s.position == s.tasks.len() && s.pending()
            == (ActionView::RunCommand { command: s.global().unwrap() }),
        s.stage == Stage::GlobalCommand ==> s.next(event) == s || s.next(event).stage
            == Stage::Finished,
        s.stage != Stage::GlobalCommand && s.stage != Stage::Finished && s.next(event).stage
            == Stage::Finished ==> s.global() is None,
        s.next(event).stage == Stage::GlobalCommand ==> s.global() is Some,
        s.stage == Stage::DisplayCommand ==> s.pending() == (ActionView::RunCommand {
            command: s.tasks[s.position].command.unwrap(),
        }),
{
    lemma_settle_around(s, event);
    lemma_next_wf(s, event);
}

/// Only displays that have an input set are asked or written to, and only
/// commands that are set are run.
pub proof fn lemma_pending_is_configured(s: SessionView)
    requires
        s.wf(),
    ensures
        s.pending() matches ActionView::ReadInput { display } ==> 0 <= display < s.tasks.len()
            && s.tasks[display].input is Some,
        s.pending() matches ActionView::WriteInput { display, value } ==> 0 <= display
            < s.tasks.len() && s.tasks[display].input == Some(
            s.tasks[display].input.unwrap(),
        ) && value == s.tasks[display].input.unwrap().value_spec(),
        s.pending() matches ActionView::RunCommand { command } ==> (s.stage
            == Stage::DisplayCommand && s.tasks[s.position].command == Some(command)) || (s.stage
            == Stage::GlobalCommand && s.global() == Some(command)),
{
}

impl<'a> View for SwitchSession<'a> {
    type V = SessionView;

    closed spec fn view(&self) -> SessionView {
        SessionView {
            config: *self.config,
            direction: self.direction,
            platform: self.platform,
            stage: self.stage,
            position: self.position as int,
            tasks: task_views(self.tasks@),
        }
    }
}

/// What is to be done for each of the displays, in the order of the listing.
pub fn tasks_of(
    config: &Configuration,
    direction: SwitchDirection,
    platform: Platform,
    displays: &Vec<DisplayInfo>,
) -> (tasks: Vec<DisplayTask>)
    ensures
        task_views(tasks@) == tasks_for(*config, direction, platform, displays@),
{
    let names = identity_of(displays, platform);
    let mut tasks: Vec<DisplayTask> = Vec::new();
    let mut i: usize = 0;
    assert(texts_of(names@).len() == names.len());
    while i < names.len()
        invariant
            i <= names.len(),
            names.len() == displays.len(),
            texts_of(names@) == identities(displays@, platform),
            task_views(tasks@) == tasks_for(*config, direction, platform, displays@).take(i as int),
        decreases names.len() - i,
    {
        let name = names[i].clone();
        let sources = config.configuration_for_monitor(name.as_str());
        let input = sources.source(direction);
        let command = match sources.execute_command(direction) {
            Some(text) => Some(text.to_owned()),
            None => None,
        };
        let ghost before = task_views(tasks@);
        let task = DisplayTask { name, input, command };
        tasks.push(task);
        assert(task_views(tasks@) =~= before.push(task@));
        i += 1;
    }
    tasks
}

/// Finds where a session stands when the displays from place `from` on are
/// still to be dealt with.
fn settle_at(tasks: &Vec<DisplayTask>, has_global: bool, from: usize) -> (to: (Stage, usize))
    requires
        from <= tasks.len(),
    ensures
        forall|global: Option<Seq<char>>|
            (global is Some) == has_global ==> (to.0, to.1 as int) == #[trigger] settle(
                task_views(tasks@),
                global,
                from as int,
            ),
{
    let mut i: usize = from;
    while i < tasks.len()
        invariant
            from <= i <= tasks.len(),
            forall|global: Option<Seq<char>>|
                #[trigger] settle(task_views(tasks@), global, from as int) == settle(
                    task_views(tasks@),
                    global,
                    i as int,
                ),
        decreases tasks.len() - i,
    {
        if tasks[i].input.is_some() {
            return (Stage::Reading, i);
        }
        if tasks[i].command.is_some() {
            return (Stage::DisplayCommand, i);
        }
        i += 1;
    }
    if has_global {
        (Stage::GlobalCommand, tasks.len())
    } else {
        (Stage::Finished, tasks.len())
    }
}

/// Finds where a session stands once the input of the display at place
/// `position` is dealt with.
fn after_input_at(tasks: &Vec<DisplayTask>, has_global: bool, position: usize) -> (to: (
    Stage,
    usize,
))
    requires
        position < tasks.len(),
    ensures
        forall|global: Option<Seq<char>>|
            (global is Some) == has_global ==> (to.0, to.1 as int) == #[trigger] after_input(
                task_views(tasks@),
                global,
                position as int,
            ),
{
    if tasks[position].command.is_some() {
        (Stage::DisplayCommand, position)
    } else {
        settle_at(tasks, has_global, position + 1)
    }
}

impl<'a> SwitchSession<'a> {
    #[verifier::type_invariant]
    spec fn valid(&self) -> bool {
        self@.wf()
    }

    /// A session in the given direction that starts by waking the displays
    /// and then lists them.
    pub fn waking(
        config: &'a Configuration,
        direction: SwitchDirection,
        platform: Platform,
    ) -> (session: SwitchSession<'a>)
        ensures
            session@ == (SessionView {
                config: *config,
                direction,
                platform,
                stage: Stage::Waking,
                position: 0,
                tasks: Seq::empty(),
            }),
            session@.wf(),
    {
        let session = SwitchSession {
            config,
            direction,
            platform,
            stage: Stage::Waking,
            position: 0,
            tasks: Vec::new(),
        };
        assert(session@.tasks =~= Seq::empty());
        session
    }

    /// Whether the session is over.
    pub fn is_over(&self) -> (over: bool)
        ensures
            over == (self@.stage == Stage::Finished || self@.stage == Stage::Abandoned),
    {
        match self.stage {
            Stage::Finished | Stage::Abandoned => true,
            _ => false,
        }
    }

    /// The action that the session waits for.
    pub fn pending(&self) -> (action: Action)
        ensures
            action@ == self@.pending(),
            self@.wf(),
    {
        proof {
            use_type_invariant(self);
        }
        match self.stage {
            Stage::Waking => Action::WakeDisplays,
            Stage::Listing => Action::Enumerate,
            Stage::ListingAgain => Action::RetryAfter { millis: RETRY_DELAY_MS },
            Stage::Reading => Action::ReadInput { display: self.position },
            Stage::Writing => {
                match self.tasks[self.position].input {
                    Some(input) => Action::WriteInput {
                        display: self.position,
                        value: input.value(),
                    },
                    None => Action::Finish { outcome: Outcome::Switched },
                }
            },
            Stage::DisplayCommand => {
                match copy_of(&self.tasks[self.position].command) {
                    Some(command) => Action::RunCommand { command },
                    None => Action::Finish { outcome: Outcome::Switched },
                }
            },
            Stage::GlobalCommand => {
                match self.config.default_input_sources.execute_command(self.direction) {
                    Some(command) => Action::RunCommand { command: command.to_owned() },
                    None => Action::Finish { outcome: Outcome::Switched },
                }
            },
            Stage::Finished => Action::Finish { outcome: Outcome::Switched },
            Stage::Abandoned => Action::Finish { outcome: Outcome::NoDisplays },
        }
    }

    /// Takes in what came of the pending action and says what is to be done
    /// next. An event that does not answer the pending action is ignored:
    /// the session stays as it is and names the pending action again.
    pub fn step(self, event: Event) -> (r: (SwitchSession<'a>, Action))
        ensures
            r.0@ == self@.next(event),
            r.1@ == r.0@.pending(),
            r.0@.wf(),
    {
        proof {
            use_type_invariant(&self);
            lemma_next_wf(self@, event);
        }
        let config = self.config;
        let direction = self.direction;
        let platform = self.platform;
        let has_global = config.default_input_sources.execute_command(direction).is_some();
        let ghost before = self@;
        assert(before.tasks.len() == self.tasks.len());
        let (stage, position, tasks) = match (self.stage, event) {
            (Stage::Waking, Event::WakeStarted) => (Stage::Listing, 0, self.tasks),
            (Stage::Listing, Event::Enumerated(displays)) => {
                if displays.len() == 0 {
                    (Stage::ListingAgain, 0, self.tasks)
                } else {
                    let tasks = tasks_of(config, direction, platform, &displays);
                    let to = settle_at(&tasks, has_global, 0);
                    (to.0, to.1, tasks)
                }
            },
            (Stage::ListingAgain, Event::Enumerated(displays)) => {
                if displays.len() == 0 {
                    (Stage::Abandoned, 0, self.tasks)
                } else {
                    let tasks = tasks_of(config, direction, platform, &displays);
                    let to = settle_at(&tasks, has_global, 0);
                    (to.0, to.1, tasks)
                }
            },
            (Stage::Reading, Event::InputRead(reading)) => {
                let write = match self.tasks[self.position].input {
                    Some(input) => try_switch_display(reading, input).is_some(),
                    None => false,
                };
                if write {
                    (Stage::Writing, self.position, self.tasks)
                } else {
                    let to = after_input_at(&self.tasks, has_global, self.position);
                    (to.0, to.1, self.tasks)
                }
            },
            (Stage::Writing, Event::InputWritten(_)) => {
                let to = after_input_at(&self.tasks, has_global, self.position);
                (to.0, to.1, self.tasks)
            },
            (Stage::DisplayCommand, Event::CommandRan) => {
                let to = settle_at(&self.tasks, has_global, self.position + 1);
                (to.0, to.1, self.tasks)
            },
            (Stage::GlobalCommand, Event::CommandRan) => {
                (Stage::Finished, self.tasks.len(), self.tasks)
            },
            (stage, _) => (stage, self.position, self.tasks),
        };
        let next = SwitchSession { config, direction, platform, stage, position, tasks };
        let action = next.pending();
        (next, action)
    }
}

/// Begins a switch of all displays in the given direction. The session
/// starts by listing the displays; each step then follows `next`.
pub fn switch<'a>(config: &'a Configuration, switch_direction: SwitchDirection, platform: Platform)
    -> (session: SwitchSession<'a>)
    ensures
        session@ == (SessionView {
            config: *config,
            direction: switch_direction,
            platform,
            stage: Stage::Listing,
            position: 0,
            tasks: Seq::empty(),
        }),
        session@.pending() == ActionView::Enumerate,
        session@.wf(),
{
    let session = SwitchSession {
        config,
        direction: switch_direction,
        platform,
        stage: Stage::Listing,
        position: 0,
        tasks: Vec::new(),
    };
    assert(session@.tasks =~= Seq::empty());
    session
}

} // verus!
