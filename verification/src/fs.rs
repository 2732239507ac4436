//! The command relay: the one place from which the remote store is called.
//!
//! The relay takes commands off a queue one at a time. Each comes with the
//! slot for its reply. For each the relay names the store operation to
//! perform, waits for that operation's outcome, and turns the outcome into
//! the reply, to be sent into the command's own slot. [`CodeFS::poll`] is one
//! step of that loop; whoever owns the queue and the store performs the
//! actions and hands back the events.

use vstd::prelude::*;
use crate::client::CodeFSClient;
use crate::vfs::{listing_view, DirEntry, DirEntryView, FsError, Metadata};
use crate::{Command, FileCommands};

verus! {

/// Which operation a command asks for.
#[derive(Clone, Copy, Debug, PartialEq, Eq, Structural)]
pub enum CommandKind {
    Stat,
    ReadDirectory,
    CreateDirectory,
    ReadFile,
    WriteFile,
    Delete,
    Rename,
}

/// One call into the remote store.
#[derive(Debug, PartialEq, Eq)]
pub enum BackendCall {
    Stat { path: String },
    List { path: String },
    CreateDir { path: String },
    Delete { path: String },
    Rename { old_path: String, new_path: String },
    ReadWhole { path: String },
    WriteWhole { path: String, data: Vec<u8> },
}

/// The mathematical value of a [`BackendCall`].
pub enum Call {
    Stat { path: Seq<char> },
    List { path: Seq<char> },
    CreateDir { path: Seq<char> },
    Delete { path: Seq<char> },
    Rename { old_path: Seq<char>, new_path: Seq<char> },
    ReadWhole { path: Seq<char> },
    WriteWhole { path: Seq<char>, data: Seq<u8> },
}

impl View for BackendCall {
    type V = Call;

    open spec fn view(&self) -> Call {
        match *self {
            BackendCall::Stat { path } => Call::Stat { path: path@ },
            BackendCall::List { path } => Call::List { path: path@ },
            BackendCall::CreateDir { path } => Call::CreateDir { path: path@ },
            BackendCall::Delete { path } => Call::Delete { path: path@ },
            BackendCall::Rename { old_path, new_path } => Call::Rename {
                old_path: old_path@,
                new_path: new_path@,
            },
            BackendCall::ReadWhole { path } => Call::ReadWhole { path: path@ },
            BackendCall::WriteWhole { path, data } => Call::WriteWhole {
                path: path@,
                data: data@,
            },
        }
    }
}

/// What the remote store answered. Reading a whole file has no failure
/// path: the store is taken to resolve every read.
#[derive(Debug, PartialEq, Eq)]
pub enum BackendOutcome {
    /// The answer to a stat.
    Stat(Result<Metadata, FsError>),
    /// The answer to a list.
    List(Result<Vec<DirEntry>, FsError>),
    /// The answer to a create, delete, rename or write.
    Done(Result<(), FsError>),
    /// The answer to a read: the file's bytes.
    Bytes(Vec<u8>),
}

/// The mathematical value of a [`BackendOutcome`].
pub enum Outcome {
    Stat(Result<Metadata, FsError>),
    List(Result<Seq<DirEntryView>, FsError>),
    Done(Result<(), FsError>),
    Bytes(Seq<u8>),
}

/// The mathematical value of a listing or of the error in its place.
pub open spec fn listing_result_view(listing: Result<Vec<DirEntry>, FsError>) -> Result<
    Seq<DirEntryView>,
    FsError,
> {
    match listing {
        Ok(entries) => Ok(listing_view(entries@)),
        Err(error) => Err(error),
    }
}

impl View for BackendOutcome {
    type V = Outcome;

    open spec fn view(&self) -> Outcome {
        match *self {
            BackendOutcome::Stat(stat) => Outcome::Stat(stat),
            BackendOutcome::List(listing) => Outcome::List(listing_result_view(listing)),
            BackendOutcome::Done(done) => Outcome::Done(done),
            BackendOutcome::Bytes(bytes) => Outcome::Bytes(bytes@),
        }
    }
}

/// What the relay sends back to the caller of a command, one form per
/// command.
#[derive(Debug, PartialEq, Eq)]
pub enum Reply {
    Stat(Result<Metadata, FsError>),
    ReadDirectory(Result<Vec<DirEntry>, FsError>),
    CreateDirectory,
    ReadFile(Vec<u8>),
    WriteFile,
    Delete,
    Rename(Result<(), FsError>),
}

/// The mathematical value of a [`Reply`].
pub enum ReplyView {
    Stat(Result<Metadata, FsError>),
    ReadDirectory(Result<Seq<DirEntryView>, FsError>),
    CreateDirectory,
    ReadFile(Seq<u8>),
    WriteFile,
    Delete,
    Rename(Result<(), FsError>),
}

impl View for Reply {
    type V = ReplyView;

    open spec fn view(&self) -> ReplyView {
        match *self {
            Reply::Stat(stat) => ReplyView::Stat(stat),
            Reply::ReadDirectory(listing) => ReplyView::ReadDirectory(
                listing_result_view(listing),
            ),
            Reply::CreateDirectory => ReplyView::CreateDirectory,
            Reply::ReadFile(bytes) => ReplyView::ReadFile(bytes@),
            Reply::WriteFile => ReplyView::WriteFile,
            Reply::Delete => ReplyView::Delete,
            Reply::Rename(done) => ReplyView::Rename(done),
        }
    }
}

/// Something that happened and that the relay has to react to. `S` is the
/// reply slot that comes with every command: the relay hands it back with
/// the reply and never looks into it.
#[derive(Debug, PartialEq, Eq)]
pub enum RelayEvent<S> {
    /// The queue handed over its next command, with the slot for its reply.
    Command(FileCommands, S),
    /// The queue is closed and empty: no command will come any more.
    QueueClosed,
    /// The store call that the relay asked for has ended.
    Outcome(BackendOutcome),
}

/// The mathematical value of a [`RelayEvent`].
pub enum Event<S> {
    Command(Command, S),
    QueueClosed,
    Outcome(Outcome),
}

impl<S> View for RelayEvent<S> {
    type V = Event<S>;

    open spec fn view(&self) -> Event<S> {
        match *self {
            RelayEvent::Command(command, slot) => Event::Command(command@, slot),
            RelayEvent::QueueClosed => Event::QueueClosed,
            RelayEvent::Outcome(outcome) => Event::Outcome(outcome@),
        }
    }
}

/// What the relay wants done next.
#[derive(Debug, PartialEq, Eq)]
pub enum RelayAction<S> {
    /// Perform this store call and hand back its outcome.
    Call(BackendCall),
    /// Send this reply into this slot, whether or not anyone still listens
    /// there, then hand over the next command.
    Reply(S, Reply),
    /// Leave the loop.
    Stop,
}

/// The mathematical value of a [`RelayAction`].
pub enum Action<S> {
    Call(Call),
    Reply(S, ReplyView),
    Stop,
}

impl<S> View for RelayAction<S> {
    type V = Action<S>;

    open spec fn view(&self) -> Action<S> {
        match *self {
            RelayAction::Call(call) => Action::Call(call@),
            RelayAction::Reply(slot, reply) => Action::Reply(slot, reply@),
            RelayAction::Stop => Action::Stop,
        }
    }
}

/// Where the relay stands between two steps.
#[derive(Debug, PartialEq, Eq)]
pub enum RelayState<S> {
    /// Waiting for the next command.
    Idle,
    /// A store call for a command of this kind is in flight; the reply is to
    /// go into this slot.
    Busy(CommandKind, S),
    /// The queue was closed; the relay has left its loop.
    Stopped,
}

impl<S> RelayState<S> {
    /// The kind of the command whose store call is in flight, if one is.
    pub open spec fn in_flight(self) -> Option<CommandKind> {
        match self {
            RelayState::Busy(kind, _) => Some(kind),
            _ => None,
        }
    }
}

/// The kind of a command.
pub open spec fn kind_of(command: Command) -> CommandKind {
    match command {
        Command::Stat { .. } => CommandKind::Stat,
        Command::ReadDirectory { .. } => CommandKind::ReadDirectory,
        Command::CreateDirectory { .. } => CommandKind::CreateDirectory,
        Command::ReadFile { .. } => CommandKind::ReadFile,
        Command::WriteFile { .. } => CommandKind::WriteFile,
        Command::Delete { .. } => CommandKind::Delete,
        Command::Rename { .. } => CommandKind::Rename,
    }
}

/// The one store call that a command stands for, on the command's own paths
/// and payload.
pub open spec fn call_for(command: Command) -> Call {
    match command {
        Command::Stat { path } => Call::Stat { path },
        Command::ReadDirectory { path } => Call::List { path },
        Command::CreateDirectory { path } => Call::CreateDir { path },
        Command::ReadFile { path } => Call::ReadWhole { path },
        Command::WriteFile { path, data } => Call::WriteWhole { path, data },
        Command::Delete { path } => Call::Delete { path },
        Command::Rename { old_path, new_path } => Call::Rename { old_path, new_path },
    }
}

/// Whether an outcome has the form in which the store answers a command of
/// the given kind.
pub open spec fn answers(kind: CommandKind, outcome: Outcome) -> bool {
    match kind {
        CommandKind::Stat => outcome is Stat,
        CommandKind::ReadDirectory => outcome is List,
        CommandKind::ReadFile => outcome is Bytes,
        CommandKind::CreateDirectory | CommandKind::WriteFile | CommandKind::Delete
        | CommandKind::Rename => outcome is Done,
    }
}

/// The reply for a command of the given kind whose store call ended in
/// `outcome`. Stat, list and rename hand the store's answer on as it is,
/// error included; create, delete and write report completion whatever the
/// store said; a read hands on the bytes.
pub open spec fn reply_for(kind: CommandKind, outcome: Outcome) -> ReplyView {
    match kind {
        CommandKind::Stat => ReplyView::Stat(outcome->Stat_0),
        CommandKind::ReadDirectory => ReplyView::ReadDirectory(outcome->List_0),
        CommandKind::CreateDirectory => ReplyView::CreateDirectory,
        CommandKind::ReadFile => ReplyView::ReadFile(outcome->Bytes_0),
        CommandKind::WriteFile => ReplyView::WriteFile,
        CommandKind::Delete => ReplyView::Delete,
        CommandKind::Rename => ReplyView::Rename(outcome->Done_0),
    }
}

/// The kind of command that a reply answers.
pub open spec fn form_of(reply: ReplyView) -> CommandKind {
    match reply {
        ReplyView::Stat(_) => CommandKind::Stat,
        ReplyView::ReadDirectory(_) => CommandKind::ReadDirectory,
        ReplyView::CreateDirectory => CommandKind::CreateDirectory,
        ReplyView::ReadFile(_) => CommandKind::ReadFile,
        ReplyView::WriteFile => CommandKind::WriteFile,
        ReplyView::Delete => CommandKind::Delete,
        ReplyView::Rename(_) => CommandKind::Rename,
    }
}

/// One step of the relay: the next state and the action, or `None` where the
/// event cannot occur in the state. An idle relay takes a command or the
/// closing of the queue; a busy relay takes the outcome of its call, in the
/// form that answers the command in flight, and sends the reply into the slot
/// that came with that command; a stopped relay takes nothing.
pub open spec fn step<S>(state: RelayState<S>, event: Event<S>) -> Option<
    (RelayState<S>, Action<S>),
> {
    match (state, event) {
        (RelayState::Idle, Event::Command(command, slot)) => Some(
            (RelayState::Busy(kind_of(command), slot), Action::Call(call_for(command))),
        ),
        (RelayState::Idle, Event::QueueClosed) => Some((RelayState::Stopped, Action::Stop)),
        (RelayState::Busy(kind, slot), Event::Outcome(outcome)) => if answers(kind, outcome) {
            Some((RelayState::Idle, Action::Reply(slot, reply_for(kind, outcome))))
        } else {
            None
        },
        _ => None,
    }
}

/// The relay's side of the command queue.
#[derive(Debug)]
pub struct CodeFS<S> {
    state: RelayState<S>,
}

impl<S> View for CodeFS<S> {
    type V = RelayState<S>;

    closed spec fn view(&self) -> RelayState<S> {
        self.state
    }
}

impl<S> CodeFS<S> {
    /// A relay that waits for its first command.
    pub fn new() -> (relay: Self)
        ensures
            relay@ == RelayState::<S>::Idle,
    {
        CodeFS { state: RelayState::Idle }
    }

    /// A handle for callers that want to send commands to this relay.
    pub fn create_client(&self) -> (client: CodeFSClient) {
        CodeFSClient::new()
    }

    /// The kind of the command whose store call is in flight, if one is.
    pub fn in_flight(&self) -> (kind: Option<CommandKind>)
        ensures
            kind == self@.in_flight(),
    {
        match &self.state {
            RelayState::Busy(kind, _) => Some(*kind),
            _ => None,
        }
    }

    /// Whether the relay has left its loop.
    pub fn is_stopped(&self) -> (stopped: bool)
        ensures
            stopped == (self@ is Stopped),
    {
        match &self.state {
            RelayState::Stopped => true,
            _ => false,
        }
    }

    /// Whether `event` can occur in the relay's present state.
    pub fn accepts(&self, event: &RelayEvent<S>) -> (accepted: bool)
        ensures
            accepted == (step(self@, event@) is Some),
    {
        match &self.state {
            RelayState::Idle => match event {
                RelayEvent::Command(_, _) => true,
                RelayEvent::QueueClosed => true,
                RelayEvent::Outcome(_) => false,
            },
            RelayState::Busy(kind, _) => match event {
                RelayEvent::Outcome(outcome) => match kind {
                    CommandKind::Stat => match outcome {
                        BackendOutcome::Stat(_) => true,
                        _ => false,
                    },
                    CommandKind::ReadDirectory => match outcome {
                        BackendOutcome::List(_) => true,
                        _ => false,
                    },
                    CommandKind::ReadFile => match outcome {
                        BackendOutcome::Bytes(_) => true,
                        _ => false,
                    },
                    CommandKind::CreateDirectory | CommandKind::WriteFile | CommandKind::Delete
                    | CommandKind::Rename => match outcome {
                        BackendOutcome::Done(_) => true,
                        _ => false,
                    },
                },
                _ => false,
            },
            RelayState::Stopped => false,
        }
    }

    /// One step of the relay loop.
    ///
    /// A command makes the relay busy and asks for the one store call that the
    /// command stands for. The outcome of that call makes the relay idle again
    /// and asks for the reply to be sent into the slot that came with the
    /// command; a failed call is reported in the reply where the command's
    /// reply can carry it and never stops the relay. The closing of the queue
    /// stops the relay.
    pub fn poll(&mut self, event: RelayEvent<S>) -> (action: RelayAction<S>)
        requires
            step(old(self)@, event@) is Some,
        ensures
            step(old(self)@, event@) == Some((final(self)@, action@)),
    {
        match event {
            RelayEvent::Command(command, slot) => {
                let (kind, call) = match command {
                    FileCommands::CreateDirectory { path } => (
                        CommandKind::CreateDirectory,
                        BackendCall::CreateDir { path },
                    ),
                    FileCommands::Delete { path } => (
                        CommandKind::Delete,
                        BackendCall::Delete { path },
                    ),
                    FileCommands::Stat { path } => (CommandKind::Stat, BackendCall::Stat { path }),
                    FileCommands::ReadDirectory { path } => (
                        CommandKind::ReadDirectory,
                        BackendCall::List { path },
                    ),
                    FileCommands::Rename { old_path, new_path } => (
                        CommandKind::Rename,
                        BackendCall::Rename { old_path, new_path },
                    ),
                    FileCommands::ReadFile { path } => (
                        CommandKind::ReadFile,
                        BackendCall::ReadWhole { path },
                    ),
                    FileCommands::WriteFile { path, data } => (
                        CommandKind::WriteFile,
                        BackendCall::WriteWhole { path, data },
                    ),
                };
                self.state = RelayState::Busy(kind, slot);
                RelayAction::Call(call)
            },
            RelayEvent::QueueClosed => {
                self.state = RelayState::Stopped;
                RelayAction::Stop
            },
            RelayEvent::Outcome(outcome) => {
                let mut state = RelayState::Idle;
                core::mem::swap(&mut self.state, &mut state);
                match (state, outcome) {
                    (RelayState::Busy(CommandKind::CreateDirectory, slot), BackendOutcome::Done(_)) => {
                        RelayAction::Reply(slot, Reply::CreateDirectory)
                    },
                    (RelayState::Busy(CommandKind::Delete, slot), BackendOutcome::Done(_)) => {
                        RelayAction::Reply(slot, Reply::Delete)
                    },
                    (RelayState::Busy(CommandKind::Stat, slot), BackendOutcome::Stat(stat)) => {
                        RelayAction::Reply(slot, Reply::Stat(stat))
                    },
                    (
                        RelayState::Busy(CommandKind::ReadDirectory, slot),
                        BackendOutcome::List(listing),
                    ) => RelayAction::Reply(slot, Reply::ReadDirectory(listing)),
                    (RelayState::Busy(CommandKind::Rename, slot), BackendOutcome::Done(done)) => {
                        RelayAction::Reply(slot, Reply::Rename(done))
                    },
                    (RelayState::Busy(CommandKind::ReadFile, slot), BackendOutcome::Bytes(bytes)) => {
                        RelayAction::Reply(slot, Reply::ReadFile(bytes))
                    },
                    (RelayState::Busy(CommandKind::WriteFile, slot), BackendOutcome::Done(_)) => {
                        RelayAction::Reply(slot, Reply::WriteFile)
                    },
                    _ => unreached(),
                }
            },
        }
    }
}

/// What a relay that starts in `start` does with `events`, taken one after
/// another: the state it ends in and the actions it asked for, in order; or
/// `None` where one of the events cannot occur when its turn comes.
pub open spec fn run<S>(start: RelayState<S>, events: Seq<Event<S>>) -> Option<
    (RelayState<S>, Seq<Action<S>>),
>
    decreases events.len(),
{
    if events.len() == 0 {
        Some((start, Seq::empty()))
    } else {
        match run(start, events.drop_last()) {
            Some((state, actions)) => match step(state, events.last()) {
                Some((next, action)) => Some((next, actions.push(action))),
                None => None,
            },
            None => None,
        }
    }
}

/// The actions that a relay which starts idle asks for when handed `events`.
pub open spec fn issued<S>(events: Seq<Event<S>>) -> Seq<Action<S>> {
    match run(RelayState::Idle, events) {
        Some((_, actions)) => actions,
        None => Seq::empty(),
    }
}

/// The state in which `events` leave a relay that starts idle.
pub open spec fn left_in<S>(events: Seq<Event<S>>) -> RelayState<S> {
    match run(RelayState::Idle, events) {
        Some((state, _)) => state,
        None => RelayState::Stopped,
    }
}

/// The commands among `events`, in the order in which they were received.
pub open spec fn commands_of<S>(events: Seq<Event<S>>) -> Seq<Command>
    decreases events.len(),
{
    if events.len() == 0 {
        Seq::empty()
    } else {
        match events.last() {
            Event::Command(command, _) => commands_of(events.drop_last()).push(command),
            _ => commands_of(events.drop_last()),
        }
    }
}

/// The reply slots that came with the commands among `events`, in the order
/// in which the commands were received.
pub open spec fn slots_of<S>(events: Seq<Event<S>>) -> Seq<S>
    decreases events.len(),
{
    if events.len() == 0 {
        Seq::empty()
    } else {
        match events.last() {
            Event::Command(_, slot) => slots_of(events.drop_last()).push(slot),
            _ => slots_of(events.drop_last()),
        }
    }
}

/// The store calls among `actions`, in the order in which they were issued.
pub open spec fn calls_of<S>(actions: Seq<Action<S>>) -> Seq<Call>
    decreases actions.len(),
{
    if actions.len() == 0 {
        Seq::empty()
    } else {
        match actions.last() {
            Action::Call(call) => calls_of(actions.drop_last()).push(call),
            _ => calls_of(actions.drop_last()),
        }
    }
}

/// The slots that the replies among `actions` go into, in the order in which
/// the replies were sent.
pub open spec fn reply_slots_of<S>(actions: Seq<Action<S>>) -> Seq<S>
    decreases actions.len(),
{
    if actions.len() == 0 {
        Seq::empty()
    } else {
        match actions.last() {
            Action::Reply(slot, _) => reply_slots_of(actions.drop_last()).push(slot),
            _ => reply_slots_of(actions.drop_last()),
        }
    }
}

/// The events of a run in which the queue hands over `commands` one by one,
/// `commands[i]` with the slot `slots[i]`, and the store answers the call for
/// `commands[i]` with `outcomes[i]`.
pub open spec fn session<S>(
    commands: Seq<Command>,
    slots: Seq<S>,
    outcomes: Seq<Outcome>,
) -> Seq<Event<S>> {
    Seq::new(
        2 * commands.len(),
        |i: int|
            if i % 2 == 0 {
                Event::Command(commands[i / 2], slots[i / 2])
            } else {
                Event::Outcome(outcomes[i / 2])
            },
    )
}

/// What the relay is to do in such a run: for each command in turn its store
/// call, then its reply, sent into the command's own slot.
pub open spec fn transcript<S>(
    commands: Seq<Command>,
    slots: Seq<S>,
    outcomes: Seq<Outcome>,
) -> Seq<Action<S>> {
    Seq::new(
        2 * commands.len(),
        |i: int|
            if i % 2 == 0 {
                Action::Call(call_for(commands[i / 2]))
            } else {
                Action::Reply(slots[i / 2], reply_for(kind_of(commands[i / 2]), outcomes[i / 2]))
            },
    )
}

/// Store calls are issued in the order in which commands are received: in
/// every run of a relay that starts idle, the calls it asks for are the calls
/// of the commands it was handed, one for one and in the same order. The
/// commands of one caller reach the relay in the order in which they were
/// sent, so their calls are issued in that order too.
pub proof fn lemma_calls_follow_commands<S>(events: Seq<Event<S>>)
    requires
        run(RelayState::Idle, events) is Some,
    ensures
        calls_of(issued(events)) == commands_of(events).map_values(
            |command: Command| call_for(command),
        ),
        calls_of(issued(events)).len() == commands_of(events).len(),
        forall|i: int|
            0 <= i < commands_of(events).len() ==> calls_of(issued(events))[i] == call_for(
                #[trigger] commands_of(events)[i],
            ),
    decreases events.len(),
{
    let call = |command: Command| call_for(command);
    if events.len() == 0 {
        assert(calls_of(Seq::<Action<S>>::empty()) =~= commands_of(events).map_values(call));
    } else {
        let before = events.drop_last();
        lemma_calls_follow_commands(before);
        let (state, actions) = run(RelayState::Idle, before)->0;
        let (next, action) = step(state, events.last())->0;
        assert(actions.push(action).drop_last() =~= actions);
        match events.last() {
            Event::Command(command, _) => {
                assert(commands_of(before).push(command).map_values(call) =~= commands_of(
                    before,
                ).map_values(call).push(call_for(command)));
            },
            _ => {},
        }
    }
}

/// Replies go back to the callers of their commands: in every run of a relay
/// that starts idle, the slots that the replies were sent into are the slots
/// that came with the commands, one for one and in the same order. While a
/// store call is in flight the last command is the one still unanswered, and
/// its slot is the one the relay holds.
pub proof fn lemma_replies_reach_their_callers<S>(events: Seq<Event<S>>)
    requires
        run(RelayState::Idle, events) is Some,
    ensures
        match left_in(events) {
            RelayState::Busy(_, slot) => slots_of(events) == reply_slots_of(issued(events)).push(
                slot,
            ),
            _ => slots_of(events) == reply_slots_of(issued(events)),
        },
        forall|i: int|
            0 <= i < reply_slots_of(issued(events)).len() ==> #[trigger] reply_slots_of(
                issued(events),
            )[i] == slots_of(events)[i],
    decreases events.len(),
{
    if events.len() == 0 {
    } else {
        let before = events.drop_last();
        lemma_replies_reach_their_callers(before);
        let (state, actions) = run(RelayState::Idle, before)->0;
        let (next, action) = step(state, events.last())->0;
        assert(actions.push(action).drop_last() =~= actions);
    }
}

/// In a transcript calls and replies alternate: the command at place `i` has
/// its call at place `2 * i` and right behind it its reply, which goes into
/// the slot that came with the command.
pub proof fn lemma_transcript_alternates<S>(
    commands: Seq<Command>,
    slots: Seq<S>,
    outcomes: Seq<Outcome>,
    i: int,
)
    requires
        0 <= i < commands.len(),
    ensures
        transcript(commands, slots, outcomes).len() == 2 * commands.len(),
        transcript(commands, slots, outcomes)[2 * i] == Action::<S>::Call(call_for(commands[i])),
        transcript(commands, slots, outcomes)[2 * i + 1] == Action::Reply(
            slots[i],
            reply_for(kind_of(commands[i]), outcomes[i]),
        ),
{
}

/// Every command gets exactly one store call and one reply, and no outcome
/// stalls the relay: handed `commands` one by one, with the store answering
/// each call in the form that fits it, an idle relay asks for each command's
/// call and then its reply, in turn, and is idle again at the end, whether
/// the calls succeeded or failed.
pub proof fn lemma_one_call_one_reply<S>(
    commands: Seq<Command>,
    slots: Seq<S>,
    outcomes: Seq<Outcome>,
)
    requires
        commands.len() == outcomes.len(),
        commands.len() == slots.len(),
        forall|i: int|
            0 <= i < commands.len() ==> answers(kind_of(#[trigger] commands[i]), outcomes[i]),
    ensures
        run(RelayState::Idle, session(commands, slots, outcomes)) == Some(
            (RelayState::<S>::Idle, transcript(commands, slots, outcomes)),
        ),
    decreases commands.len(),
{
    let events = session(commands, slots, outcomes);
    if commands.len() == 0 {
        assert(transcript(commands, slots, outcomes) =~= Seq::<Action<S>>::empty());
    } else {
        let n = commands.len() as int;
        let last = commands[n - 1];
        lemma_one_call_one_reply(commands.drop_last(), slots.drop_last(), outcomes.drop_last());
        let earlier = session(commands.drop_last(), slots.drop_last(), outcomes.drop_last());
        let done = transcript(commands.drop_last(), slots.drop_last(), outcomes.drop_last());
        assert(events.drop_last().drop_last() =~= earlier);
        assert(events.drop_last().last() == Event::Command(last, slots[n - 1]));
        assert(events.last() == Event::<S>::Outcome(outcomes[n - 1]));
        assert(run(RelayState::Idle, events.drop_last()) == Some(
            (
                RelayState::Busy(kind_of(last), slots[n - 1]),
                done.push(Action::Call(call_for(last))),
            ),
        ));
        assert(done.push(Action::Call(call_for(last))).push(
            Action::Reply(slots[n - 1], reply_for(kind_of(last), outcomes[n - 1])),
        ) =~= transcript(commands, slots, outcomes));
    }
}

} // verus!
