//! The commands that start and stop the receive loop, and the run state by
//! which the controller knows the one loop that may go on.
//!
//! Every start that succeeds hands out a ticket, and the latest ticket is the
//! only one that counts. A loop asks with its ticket before each read; a loop
//! whose ticket is no longer the latest is told to end, even if the flag has
//! been raised again for a successor.

use crate::config::{view_of, ConfigStore, ConfigView, ConnectionConfig};
use crate::connector::{probe_endpoint, resolves_to, ConnectError};
use vstd::prelude::*;
use vstd::string::*;

verus! {

/// Seconds between process start and the automatic start of the loop, so
/// that the user interface has its listeners in place.
pub const STARTUP_DELAY_SECS: u64 = 1;

/// The right to run a receive loop, as one start handed it out. Only a
/// start makes one.
#[derive(Debug, Clone, Copy, PartialEq, Eq)]
pub struct Ticket {
    number: u64,
}

impl View for Ticket {
    type V = nat;

    closed spec fn view(&self) -> nat {
        self.number as nat
    }
}

/// The flag that says a receive loop should keep running, and the ticket of
/// the loop that it was last raised for.
pub struct RunState {
    running: bool,
    latest: u64,
}

/// What a `RunState` holds: the flag, and the number of the latest ticket,
/// which is also how many tickets there have been.
pub ghost struct RunStateView {
    pub running: bool,
    pub ticket: nat,
}

impl View for RunState {
    type V = RunStateView;

    closed spec fn view(&self) -> RunStateView {
        RunStateView { running: self.running, ticket: self.latest as nat }
    }
}

impl RunState {
    /// A flag that is down, with no ticket handed out yet.
    pub fn new() -> (r: Self)
        ensures
            r@ == (RunStateView { running: false, ticket: 0 }),
    {
        RunState { running: false, latest: 0 }
    }

    /// The flag's value.
    pub fn is_running(&self) -> (b: bool)
        ensures
            b == self@.running,
    {
        self.running
    }

    /// Whether one more ticket can be numbered.
    pub fn has_ticket_left(&self) -> (b: bool)
        ensures
            b == (self@.ticket < u64::MAX),
    {
        self.latest < u64::MAX
    }

    /// Raises the flag if it is down, and hands out the next ticket for
    /// the loop that is to run. Returns nothing, and changes nothing, if the
    /// flag is up.
    pub fn acquire(&mut self) -> (r: Option<Ticket>)
        requires
            !old(self)@.running ==> old(self)@.ticket < u64::MAX,
        ensures
            match r {
                Some(ticket) => !old(self)@.running && ticket@ == old(self)@.ticket + 1
                    && final(self)@ == (RunStateView { running: true, ticket: ticket@ }),
                None => old(self)@.running && final(self)@ == old(self)@,
            },
    {
        if self.running {
            None
        } else {
            self.running = true;
            self.latest = self.latest + 1;
            Some(Ticket { number: self.latest })
        }
    }

    /// Lowers the flag, whatever it was. The latest ticket stays the
    /// latest, so that no loop may go on.
    pub fn lower(&mut self)
        ensures
            final(self)@ == (RunStateView { running: false, ticket: old(self)@.ticket }),
    {
        self.running = false;
    }

    /// Whether the loop that holds `ticket` may go on: the flag is up and
    /// the ticket is the latest.
    pub fn may_continue(&self, ticket: Ticket) -> (go: bool)
        ensures
            go == (self@.running && self@.ticket == ticket@),
    {
        self.running && self.latest == ticket.number
    }

    /// Takes back the ticket of a loop that has ended. The flag is lowered
    /// if the ticket is the latest; an older ticket changes nothing.
    pub fn release(&mut self, ticket: Ticket)
        ensures
            final(self)@ == (if old(self)@.ticket == ticket@ {
                RunStateView { running: false, ticket: old(self)@.ticket }
            } else {
                old(self)@
            }),
    {
        if self.latest == ticket.number {
            self.running = false;
        }
    }
}

/// Why a start was refused.
#[derive(Debug, Clone, Copy, PartialEq, Eq, Structural)]
pub enum StartError {
    /// No server address and token are configured.
    ConfigMissing,
    /// The run-state flag is up.
    AlreadyRunning,
}

/// The words in which a refused start is reported to the user.
pub open spec fn refusal_text(error: StartError) -> Seq<char> {
    match error {
        StartError::ConfigMissing => "No configuration found. Please configure first."@,
        StartError::AlreadyRunning => "WebSocket is already running"@,
    }
}

impl StartError {
    /// This refusal in words for the user.
    pub fn message(&self) -> (r: String)
        ensures
            r@ == refusal_text(*self),
    {
        match self {
            StartError::ConfigMissing => String::from_str(
                "No configuration found. Please configure first.",
            ),
            StartError::AlreadyRunning => String::from_str("WebSocket is already running"),
        }
    }
}

/// The settings store and the run state, as one value that every command
/// works on.
pub struct Controller {
    config: ConfigStore,
    run_state: RunState,
}

/// What a `Controller` holds.
pub ghost struct ControllerView {
    pub config: Option<ConfigView>,
    pub running: bool,
    /// The number of the latest ticket; 0 before the first start.
    pub ticket: nat,
}

impl View for Controller {
    type V = ControllerView;

    closed spec fn view(&self) -> ControllerView {
        ControllerView {
            config: self.config@,
            running: self.run_state@.running,
            ticket: self.run_state@.ticket,
        }
    }
}

/// What a start yields: the settings to launch a loop with and the number
/// of the loop's ticket, or the refusal. Missing settings are noticed before
/// a raised flag.
pub open spec fn start_outcome(state: ControllerView) -> Result<(ConfigView, nat), StartError> {
    match state.config {
        None => Err(StartError::ConfigMissing),
        Some(config) => if state.running {
            Err(StartError::AlreadyRunning)
        } else {
            Ok((config, state.ticket + 1))
        },
    }
}

/// The state after a start: if the start succeeded, the flag is up and the
/// ticket it handed out is the latest; if it was refused, nothing has
/// changed.
pub open spec fn after_start(state: ControllerView) -> ControllerView {
    if start_outcome(state) is Ok {
        ControllerView { config: state.config, running: true, ticket: state.ticket + 1 }
    } else {
        state
    }
}

/// The state after a stop: the flag is down.
pub open spec fn after_stop(state: ControllerView) -> ControllerView {
    ControllerView { config: state.config, running: false, ticket: state.ticket }
}

/// The state after a loop has given `ticket` back: the flag is down if the
/// ticket was the latest, and nothing has changed if it was not.
pub open spec fn after_release(state: ControllerView, ticket: nat) -> ControllerView {
    if state.ticket == ticket {
        after_stop(state)
    } else {
        state
    }
}

/// Whether the loop that holds `ticket` may go on.
pub open spec fn may_go(state: ControllerView, ticket: nat) -> bool {
    state.running && state.ticket == ticket
}

/// Whether a start in `state` can number its ticket.
pub open spec fn can_start(state: ControllerView) -> bool {
    start_outcome(state) is Ok ==> state.ticket < u64::MAX
}

/// Whether `result` is what a start in `state` returns.
pub open spec fn is_start_result(
    state: ControllerView,
    result: Result<(ConnectionConfig, Ticket), StartError>,
) -> bool {
    match start_outcome(state) {
        Ok((config, ticket)) => result.is_ok() && result.unwrap().0@ == config
            && result.unwrap().1@ == ticket,
        Err(error) => result == Err::<(ConnectionConfig, Ticket), StartError>(error),
    }
}

impl Controller {
    /// A controller with the given settings and no loop running.
    pub fn new(initial: Option<ConnectionConfig>) -> (r: Self)
        ensures
            r@ == (ControllerView { config: view_of(initial), running: false, ticket: 0 }),
    {
        Controller { config: ConfigStore::new(initial), run_state: RunState::new() }
    }

    /// Replaces the settings. A loop that runs keeps the settings it was
    /// launched with.
    pub fn save_config(&mut self, config: ConnectionConfig)
        ensures
            final(self)@ == (ControllerView {
                config: Some(config@),
                running: old(self)@.running,
                ticket: old(self)@.ticket,
            }),
    {
        self.config.set(config);
    }

    /// A copy of the settings in force.
    pub fn get_config(&self) -> (r: Option<ConnectionConfig>)
        ensures
            view_of(r) == self@.config,
    {
        self.config.get()
    }

    /// Whether one more ticket can be numbered. It can, short of
    /// `u64::MAX` starts in one process.
    pub fn has_ticket_left(&self) -> (b: bool)
        ensures
            b == (self@.ticket < u64::MAX),
            b ==> can_start(self@),
    {
        self.run_state.has_ticket_left()
    }

    /// Claims the right to launch a receive loop. On `Ok` the flag is up
    /// and the caller launches a loop with the settings and the ticket
    /// returned; the call does not wait for it. On `Err` nothing has changed.
    pub fn start(&mut self) -> (r: Result<(ConnectionConfig, Ticket), StartError>)
        requires
            can_start(old(self)@),
        ensures
            is_start_result(old(self)@, r),
            final(self)@ == after_start(old(self)@),
    {
        match self.config.get() {
            None => Err(StartError::ConfigMissing),
            Some(config) => match self.run_state.acquire() {
                Some(ticket) => Ok((config, ticket)),
                None => Err(StartError::AlreadyRunning),
            },
        }
    }

    /// The start made once by the process itself, `STARTUP_DELAY_SECS`
    /// after it began: a start whose refusal is not reported.
    pub fn auto_start(&mut self) -> (r: Option<(ConnectionConfig, Ticket)>)
        requires
            can_start(old(self)@),
        ensures
            match start_outcome(old(self)@) {
                Ok((config, ticket)) => r.is_some() && r.unwrap().0@ == config && r.unwrap().1@
                    == ticket,
                Err(_) => r.is_none(),
            },
            final(self)@ == after_start(old(self)@),
    {
        match self.start() {
            Ok(launch) => Some(launch),
            Err(_) => None,
        }
    }

    /// Asks the loop to end. The loop learns of it when it next asks
    /// whether it may go on, which it does before every read; a read already
    /// under way may still deliver one message.
    pub fn stop(&mut self)
        ensures
            final(self)@ == after_stop(old(self)@),
    {
        self.run_state.lower();
    }

    /// Whether the flag is up.
    pub fn status(&self) -> (running: bool)
        ensures
            running == self@.running,
    {
        self.run_state.is_running()
    }

    /// Answers a loop that asks, before a read, whether it may go on. Of
    /// all tickets only the latest gets a yes, and only while the flag is up.
    pub fn may_continue(&self, ticket: Ticket) -> (go: bool)
        ensures
            go == may_go(self@, ticket@),
    {
        self.run_state.may_continue(ticket)
    }

    /// Takes back the ticket of a loop that has ended, and lowers the flag
    /// if that loop was the latest. The flag of a successor is left alone.
    pub fn release(&mut self, ticket: Ticket)
        ensures
            final(self)@ == after_release(old(self)@, ticket@),
    {
        self.run_state.release(ticket);
    }
}

/// A command from the user interface.
#[derive(Debug, PartialEq, Eq)]
pub enum Command {
    SaveConfig { server_address: String, credential: String },
    GetConfig,
    TestConnection { server_address: String, credential: String },
    Start,
    Stop,
    Status,
}

/// The answer to a command.
#[derive(Debug, PartialEq, Eq)]
pub enum Reply {
    /// The settings were replaced.
    Saved,
    /// The settings in force.
    Config(Option<ConnectionConfig>),
    /// The endpoint on which the caller is to try a handshake and drop the
    /// stream at once, or why there is none.
    Probe(Result<String, ConnectError>),
    /// The caller is to launch a receive loop with these settings and this
    /// ticket.
    Started(ConnectionConfig, Ticket),
    /// The start was refused.
    NotStarted(StartError),
    /// The flag is down.
    Stopped,
    /// The flag's value.
    Status(bool),
}

/// The state that a command leaves. Only three commands change it: saving
/// replaces the settings, a start that succeeds raises the flag and numbers
/// a ticket, a stop lowers the flag.
pub open spec fn state_after(state: ControllerView, command: Command) -> ControllerView {
    match command {
        Command::SaveConfig { server_address, credential } => ControllerView {
            config: Some(ConfigView { server_address: server_address@, credential: credential@ }),
            running: state.running,
            ticket: state.ticket,
        },
        Command::Start => after_start(state),
        Command::Stop => after_stop(state),
        _ => state,
    }
}

/// Whether `reply` answers `command` in `state`.
pub open spec fn answers(state: ControllerView, command: Command, reply: Reply) -> bool {
    match command {
        Command::SaveConfig { .. } => reply is Saved,
        Command::GetConfig => reply matches Reply::Config(config) && view_of(config)
            == state.config,
        Command::TestConnection { server_address, credential } => reply matches Reply::Probe(
            resolved,
        ) && resolves_to(server_address@, credential@, resolved),
        Command::Start => match start_outcome(state) {
            Ok((config, ticket)) => reply matches Reply::Started(launched, handed)
                && launched@ == config && handed@ == ticket,
            Err(error) => reply == Reply::NotStarted(error),
        },
        Command::Stop => reply is Stopped,
        Command::Status => reply == Reply::Status(state.running),
    }
}

impl Controller {
    /// Carries out one command.
    pub fn handle(&mut self, command: Command) -> (reply: Reply)
        requires
            command is Start ==> can_start(old(self)@),
        ensures
            final(self)@ == state_after(old(self)@, command),
            answers(old(self)@, command, reply),
    {
        match command {
            Command::SaveConfig { server_address, credential } => {
                self.save_config(ConnectionConfig::new(server_address, credential));
                Reply::Saved
            },
            Command::GetConfig => Reply::Config(self.get_config()),
            Command::TestConnection { server_address, credential } => Reply::Probe(
                probe_endpoint(server_address, credential),
            ),
            Command::Start => match self.start() {
                Ok((config, ticket)) => Reply::Started(config, ticket),
                Err(error) => Reply::NotStarted(error),
            },
            Command::Stop => {
                self.stop();
                Reply::Stopped
            },
            Command::Status => Reply::Status(self.status()),
        }
    }
}

/// One thing that happens to a controller: the user interface asks for
/// something, or a loop that has ended gives its ticket back.
pub ghost enum Move {
    Ask(Command),
    Release(nat),
}

/// The state that a move leaves.
pub open spec fn state_after_move(state: ControllerView, step: Move) -> ControllerView {
    match step {
        Move::Ask(command) => state_after(state, command),
        Move::Release(ticket) => after_release(state, ticket),
    }
}

/// The state after a run of moves.
pub open spec fn state_after_all(state: ControllerView, moves: Seq<Move>) -> ControllerView
    decreases moves.len(),
{
    if moves.len() == 0 {
        state
    } else {
        state_after_all(state_after_move(state, moves[0]), moves.drop_first())
    }
}

/// Whether a move is a start that succeeds in `state`.
pub open spec fn hands_out(state: ControllerView, step: Move) -> bool {
    step == Move::Ask(Command::Start) && start_outcome(state) is Ok
}

/// The tickets that the starts in a run of moves hand out, in order.
pub open spec fn handed_out(state: ControllerView, moves: Seq<Move>) -> Seq<nat>
    decreases moves.len(),
{
    if moves.len() == 0 {
        Seq::empty()
    } else {
        let rest = handed_out(state_after_move(state, moves[0]), moves.drop_first());
        if hands_out(state, moves[0]) {
            seq![state.ticket + 1] + rest
        } else {
            rest
        }
    }
}

/// Whether a move is a command other than a stop.
pub open spec fn keeps_flag(step: Move) -> bool {
    step matches Move::Ask(command) && !(command is Stop)
}

/// At most one loop may go on. The tickets that a run of moves hands out
/// are numbered one after the other from the latest ticket before the run,
/// so no two of them are the same and none is a ticket handed out earlier;
/// and after the run, whatever stops, starts and releases it held, no ticket
/// but the latest may go on.
pub proof fn lemma_one_ticket_may_continue(state: ControllerView, moves: Seq<Move>)
    ensures
        ({
            let end = state_after_all(state, moves);
            let tickets = handed_out(state, moves);
            &&& end.ticket == state.ticket + tickets.len()
            &&& forall|i: int| 0 <= i < tickets.len() ==> #[trigger] tickets[i] == state.ticket + 1 + i
            &&& forall|i: int|
                0 <= i < tickets.len() && may_go(end, #[trigger] tickets[i]) ==> i == tickets.len()
                    - 1
            &&& forall|ticket: nat| #[trigger] may_go(end, ticket) ==> ticket == end.ticket
        }),
    decreases moves.len(),
{
    if moves.len() > 0 {
        let next = state_after_move(state, moves[0]);
        let rest = handed_out(next, moves.drop_first());
        lemma_one_ticket_may_continue(next, moves.drop_first());
        let tickets = handed_out(state, moves);
        if hands_out(state, moves[0]) {
            assert(tickets =~= seq![state.ticket + 1] + rest);
            assert forall|i: int| 0 <= i < tickets.len() implies #[trigger] tickets[i]
                == state.ticket + 1 + i by {
                if i > 0 {
                    assert(tickets[i] == rest[i - 1]);
                }
            }
        } else {
            assert(next.ticket == state.ticket);
        }
    }
}

/// A loop that was stopped does not come back to life when the next one
/// is started: its ticket may no longer go on, the new ticket may, and when
/// the old loop gives its ticket back the flag of the new one stays up.
pub proof fn lemma_restart_retires_the_old_loop(state: ControllerView)
    requires
        start_outcome(state) is Ok,
    ensures
        ({
            let first = after_start(state);
            let restarted = after_start(after_stop(first));
            &&& may_go(first, first.ticket)
            &&& start_outcome(after_stop(first)) is Ok
            &&& restarted.running
            &&& restarted.ticket != first.ticket
            &&& !may_go(restarted, first.ticket)
            &&& may_go(restarted, restarted.ticket)
            &&& after_release(restarted, first.ticket) == restarted
        }),
{
}

/// The loop that holds the latest ticket lowers the flag when it gives the
/// ticket back; after that no ticket may go on until the next start.
pub proof fn lemma_latest_release_lowers_flag(state: ControllerView)
    ensures
        !after_release(state, state.ticket).running,
        forall|ticket: nat| !#[trigger] may_go(after_release(state, state.ticket), ticket),
{
}

/// With settings present, a start that follows a start is refused with
/// `AlreadyRunning`, whatever the first one returned and whatever commands
/// came between them, as long as none of those was a stop and no loop gave
/// its ticket back.
pub proof fn lemma_second_start_is_refused(state: ControllerView, between: Seq<Move>)
    requires
        state.config is Some,
        forall|i: int| 0 <= i < between.len() ==> keeps_flag(#[trigger] between[i]),
    ensures
        start_outcome(state_after_all(after_start(state), between)) == Err::<
            (ConfigView, nat),
            StartError,
        >(StartError::AlreadyRunning),
{
    lemma_flag_stays_up(after_start(state), between);
}

proof fn lemma_flag_stays_up(state: ControllerView, moves: Seq<Move>)
    requires
        state.config is Some,
        state.running,
        forall|i: int| 0 <= i < moves.len() ==> keeps_flag(#[trigger] moves[i]),
    ensures
        state_after_all(state, moves).config is Some,
        state_after_all(state, moves).running,
    decreases moves.len(),
{
    if moves.len() > 0 {
        let rest = moves.drop_first();
        assert(keeps_flag(moves[0]));
        assert forall|i: int| 0 <= i < rest.len() implies keeps_flag(#[trigger] rest[i]) by {
            assert(rest[i] == moves[i + 1]);
        }
        lemma_flag_stays_up(state_after_move(state, moves[0]), rest);
    }
}

/// A stop always succeeds and leaves the flag down; a second stop changes
/// nothing.
pub proof fn lemma_stop_is_idempotent(state: ControllerView)
    ensures
        !state_after(state, Command::Stop).running,
        state_after(state, Command::Stop).config == state.config,
        state_after(state_after(state, Command::Stop), Command::Stop) == state_after(
            state,
            Command::Stop,
        ),
        !state.running ==> state_after(state, Command::Stop) == state,
        answers(state, Command::Stop, Reply::Stopped),
{
}

/// Without settings a start is refused with `ConfigMissing` and the flag
/// is not touched.
pub proof fn lemma_start_needs_config(state: ControllerView)
    requires
        state.config is None,
    ensures
        start_outcome(state) == Err::<(ConfigView, nat), StartError>(StartError::ConfigMissing),
        state_after(state, Command::Start) == state,
        forall|reply: Reply| #[trigger]
            answers(state, Command::Start, reply) ==> reply == Reply::NotStarted(
                StartError::ConfigMissing,
            ),
{
}

/// A connection test leaves settings, flag and tickets as they were, and
/// its answer never asks for a receive loop.
pub proof fn lemma_test_connection_changes_nothing(
    state: ControllerView,
    server_address: String,
    credential: String,
    reply: Reply,
)
    requires
        answers(state, Command::TestConnection { server_address, credential }, reply),
    ensures
        state_after(state, Command::TestConnection { server_address, credential }) == state,
        reply is Probe,
        !(reply is Started),
{
}

} // verus!
