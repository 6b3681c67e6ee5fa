//! The per-request state machine of a card-reading request.
//!
//! A request walks `Idle → SubsystemEstablished → AwaitingPresence(loop) →
//! CardPresent → CardConnected → Formatted`, or short-circuits into `Failed`
//! at the stage whose driver call errored; a terminal stage never changes
//! again. All driver work (establishing the subsystem context, enumerating
//! readers, the blocking status-change query, connecting, transmitting) is
//! outside the library: [`next_action`] names the one driver call a stage is
//! waiting on, the host performs it and hands the outcome back as an
//! [`Event`], and [`step`] decides the next stage. Every decision — reader
//! selection, presence detection, hexadecimal rendering, error wrapping — is
//! made here.

use vstd::prelude::*;
use crate::error::{ErrorSpec, NfcError};
use crate::hex::{format_serial, hex_of};
use crate::session::{presence_detected, select_reader, spec_present, spec_select, STATE_UNAWARE};

verus! {

/// Where a request stands. `AwaitingPresence` carries the selected reader
/// descriptor and the remembered status the next blocking query
/// compares against; `Formatted` and `Failed` are terminal.
pub enum Stage {
    /// Nothing has happened yet; the subsystem context is to be established.
    Idle,
    /// The subsystem context exists; readers are to be enumerated.
    SubsystemEstablished,
    /// A reader was selected; polling for a present card.
    AwaitingPresence(String, u64),
    /// Presence was confirmed; the card is to be connected.
    CardPresent(String),
    /// A card session exists; the serial-number command is to be transmitted.
    CardConnected,
    /// Terminal success: the serial number as an uppercase hex string.
    Formatted(String),
    /// Terminal failure at some stage.
    Failed(NfcError),
}

/// The mathematical value of a [`Stage`].
pub enum StageSpec {
    Idle,
    SubsystemEstablished,
    AwaitingPresence(Seq<char>, u64),
    CardPresent(Seq<char>),
    CardConnected,
    Formatted(Seq<char>),
    Failed(ErrorSpec),
}

impl View for Stage {
    type V = StageSpec;

    open spec fn view(&self) -> StageSpec {
        match self {
            Stage::Idle => StageSpec::Idle,
            Stage::SubsystemEstablished => StageSpec::SubsystemEstablished,
            Stage::AwaitingPresence(r, cur) => StageSpec::AwaitingPresence(r@, *cur),
            Stage::CardPresent(r) => StageSpec::CardPresent(r@),
            Stage::CardConnected => StageSpec::CardConnected,
            Stage::Formatted(s) => StageSpec::Formatted(s@),
            Stage::Failed(e) => StageSpec::Failed(e@),
        }
    }
}

/// The outcome of one driver call, handed back by the host. An error side
/// carries the driver's error text.
pub enum Event {
    /// Outcome of establishing the subsystem context.
    Established(Result<(), String>),
    /// Outcome of enumerating readers: their descriptors in enumeration order.
    ReadersListed(Result<Vec<String>, String>),
    /// Outcome of one blocking status-change query: the new event state bits.
    StatusChanged(Result<u64, String>),
    /// Outcome of connecting to the presented card.
    Connected(Result<(), String>),
    /// Outcome of the APDU exchange: the raw response bytes.
    Transmitted(Result<Vec<u8>, String>),
}

/// The mathematical value of an [`Event`].
pub enum EventSpec {
    Established(Result<(), Seq<char>>),
    ReadersListed(Result<Seq<Seq<char>>, Seq<char>>),
    StatusChanged(Result<u64, Seq<char>>),
    Connected(Result<(), Seq<char>>),
    Transmitted(Result<Seq<u8>, Seq<char>>),
}

impl View for Event {
    type V = EventSpec;

    open spec fn view(&self) -> EventSpec {
        match self {
            Event::Established(res) => EventSpec::Established(
                match res {
                    Ok(_) => Result::Ok(()),
                    Err(t) => Result::Err(t@),
                },
            ),
            Event::ReadersListed(res) => EventSpec::ReadersListed(
                match res {
                    Ok(names) => Result::Ok(names.deep_view()),
                    Err(t) => Result::Err(t@),
                },
            ),
            Event::StatusChanged(res) => EventSpec::StatusChanged(
                match res {
                    Ok(ev) => Result::Ok(*ev),
                    Err(t) => Result::Err(t@),
                },
            ),
            Event::Connected(res) => EventSpec::Connected(
                match res {
                    Ok(_) => Result::Ok(()),
                    Err(t) => Result::Err(t@),
                },
            ),
            Event::Transmitted(res) => EventSpec::Transmitted(
                match res {
                    Ok(bytes) => Result::Ok(bytes@),
                    Err(t) => Result::Err(t@),
                },
            ),
        }
    }
}

/// The one driver call a stage is waiting on.
pub enum Action {
    /// Establish the subsystem context.
    Establish,
    /// Enumerate the readers registered with the subsystem.
    ListReaders,
    /// Issue a blocking status-change query for this reader, against this
    /// remembered current state, with no timeout.
    QueryStatusChange(String, u64),
    /// Open a shared-mode connection to the card on this reader.
    Connect(String),
    /// Transmit this command APDU and collect the raw response.
    Transmit(Vec<u8>),
}

/// The mathematical value of an [`Action`].
pub enum ActionSpec {
    Establish,
    ListReaders,
    QueryStatusChange(Seq<char>, u64),
    Connect(Seq<char>),
    Transmit(Seq<u8>),
}

impl View for Action {
    type V = ActionSpec;

    open spec fn view(&self) -> ActionSpec {
        match self {
            Action::Establish => ActionSpec::Establish,
            Action::ListReaders => ActionSpec::ListReaders,
            Action::QueryStatusChange(r, cur) => ActionSpec::QueryStatusChange(r@, *cur),
            Action::Connect(r) => ActionSpec::Connect(r@),
            Action::Transmit(c) => ActionSpec::Transmit(c@),
        }
    }
}

/// The fixed 5-byte command APDU that requests the card's unique identifier:
/// class `0xFF`, instruction `0xCA`, parameters `0x00 0x00`, expected length
/// `0x00` ("get data, all available bytes").
pub open spec fn serial_command() -> Seq<u8> {
    seq![0xffu8, 0xcau8, 0x00u8, 0x00u8, 0x00u8]
}

/// How one event moves a request forward: the transition function of the
/// state machine. An event that does not answer the stage's pending action
/// leaves the stage unchanged; so does any event at a terminal stage.
pub open spec fn spec_step(s: StageSpec, e: EventSpec) -> StageSpec {
    match (s, e) {
        (StageSpec::Idle, EventSpec::Established(res)) => match res {
            Result::Ok(_) => StageSpec::SubsystemEstablished,
            Result::Err(t) => StageSpec::Failed(ErrorSpec::SubsystemUnavailable(t)),
        },
        (StageSpec::SubsystemEstablished, EventSpec::ReadersListed(res)) => match res {
            Result::Ok(names) => match spec_select(names) {
                Result::Ok(n) => StageSpec::AwaitingPresence(n, STATE_UNAWARE),
                Result::Err(err) => StageSpec::Failed(err),
            },
            Result::Err(t) => StageSpec::Failed(ErrorSpec::EnumerationFailed(t)),
        },
        (StageSpec::AwaitingPresence(r, _current), EventSpec::StatusChanged(res)) => match res {
            Result::Ok(ev) => if spec_present(ev) {
                StageSpec::CardPresent(r)
            } else {
                StageSpec::AwaitingPresence(r, ev)
            },
            Result::Err(t) => StageSpec::Failed(ErrorSpec::StatusQueryFailed(t)),
        },
        (StageSpec::CardPresent(_r), EventSpec::Connected(res)) => match res {
            Result::Ok(_) => StageSpec::CardConnected,
            Result::Err(t) => StageSpec::Failed(ErrorSpec::CardConnectFailed(t)),
        },
        (StageSpec::CardConnected, EventSpec::Transmitted(res)) => match res {
            Result::Ok(bytes) => StageSpec::Formatted(hex_of(bytes)),
            Result::Err(t) => StageSpec::Failed(ErrorSpec::TransmitFailed(t)),
        },
        (other, _) => other,
    }
}

/// Applies one driver outcome to the request's stage.
pub fn step(state: Stage, event: &Event) -> (next: Stage)
    ensures
        next@ == spec_step(state@, event@),
{
    match state {
        Stage::Idle => match event {
            Event::Established(Ok(_)) => Stage::SubsystemEstablished,
            Event::Established(Err(t)) => Stage::Failed(NfcError::SubsystemUnavailable(t.clone())),
            _ => Stage::Idle,
        },
        Stage::SubsystemEstablished => match event {
            Event::ReadersListed(Ok(names)) => match select_reader(names) {
                Ok(n) => Stage::AwaitingPresence(n, STATE_UNAWARE),
                Err(err) => Stage::Failed(err),
            },
            Event::ReadersListed(Err(t)) => Stage::Failed(NfcError::EnumerationFailed(t.clone())),
            _ => Stage::SubsystemEstablished,
        },
        Stage::AwaitingPresence(reader, current) => match event {
            Event::StatusChanged(Ok(ev)) => if presence_detected(*ev) {
                Stage::CardPresent(reader)
            } else {
                Stage::AwaitingPresence(reader, *ev)
            },
            Event::StatusChanged(Err(t)) => Stage::Failed(NfcError::StatusQueryFailed(t.clone())),
            _ => Stage::AwaitingPresence(reader, current),
        },
        Stage::CardPresent(reader) => match event {
            Event::Connected(Ok(_)) => Stage::CardConnected,
            Event::Connected(Err(t)) => Stage::Failed(NfcError::CardConnectFailed(t.clone())),
            _ => Stage::CardPresent(reader),
        },
        Stage::CardConnected => match event {
            Event::Transmitted(Ok(bytes)) => Stage::Formatted(format_serial(bytes)),
            Event::Transmitted(Err(t)) => Stage::Failed(NfcError::TransmitFailed(t.clone())),
            _ => Stage::CardConnected,
        },
        Stage::Formatted(s) => Stage::Formatted(s),
        Stage::Failed(e) => Stage::Failed(e),
    }
}

/// The driver call pending at a stage; none at a terminal stage.
pub open spec fn spec_action(s: StageSpec) -> Option<ActionSpec> {
    match s {
        StageSpec::Idle => Option::Some(ActionSpec::Establish),
        StageSpec::SubsystemEstablished => Option::Some(ActionSpec::ListReaders),
        StageSpec::AwaitingPresence(r, current) => Option::Some(
            ActionSpec::QueryStatusChange(r, current),
        ),
        StageSpec::CardPresent(r) => Option::Some(ActionSpec::Connect(r)),
        StageSpec::CardConnected => Option::Some(ActionSpec::Transmit(serial_command())),
        StageSpec::Formatted(_) => Option::None,
        StageSpec::Failed(_) => Option::None,
    }
}

/// Names the driver call the request is waiting on, or nothing when the
/// request is terminal.
pub fn next_action(state: &Stage) -> (a: Option<Action>)
    ensures
        a matches Some(x) ==> spec_action(state@) == Option::Some(x@),
        a is None ==> spec_action(state@) is None,
{
    match state {
        Stage::Idle => Some(Action::Establish),
        Stage::SubsystemEstablished => Some(Action::ListReaders),
        Stage::AwaitingPresence(r, current) => Some(
            Action::QueryStatusChange(r.clone(), *current),
        ),
        Stage::CardPresent(r) => Some(Action::Connect(r.clone())),
        Stage::CardConnected => {
            let mut c: Vec<u8> = Vec::new();
            c.push(0xff);
            c.push(0xca);
            c.push(0x00);
            c.push(0x00);
            c.push(0x00);
            proof {
                assert(c@ =~= serial_command());
            }
            Some(Action::Transmit(c))
        },
        Stage::Formatted(_) => None,
        Stage::Failed(_) => None,
    }
}

/// The stage a fresh request reaches after a sequence of driver outcomes,
/// starting from `Idle`.
pub open spec fn spec_run(events: Seq<EventSpec>) -> StageSpec
    decreases events.len(),
{
    if events.len() == 0 {
        StageSpec::Idle
    } else {
        spec_step(spec_run(events.drop_last()), events.last())
    }
}

/// The views of a sequence of driver outcomes.
pub open spec fn events_view(events: Seq<Event>) -> Seq<EventSpec> {
    events.map_values(|e: Event| e@)
}

/// Runs a fresh request over a recorded sequence of driver outcomes.
pub fn run_machine(events: &Vec<Event>) -> (r: Stage)
    ensures
        r@ == spec_run(events_view(events@)),
{
    let mut state = Stage::Idle;
    let mut i: usize = 0;
    while i < events.len()
        invariant
            i <= events@.len(),
            state@ == spec_run(events_view(events@.take(i as int))),
        decreases events@.len() - i,
    {
        state = step(state, &events[i]);
        proof {
            let cur = events_view(events@.take(i + 1 as int));
            assert(cur.drop_last() =~= events_view(events@.take(i as int)));
            assert(cur.last() == events@[i as int]@);
        }
        i += 1;
    }
    proof {
        assert(events@.take(events@.len() as int) =~= events@);
    }
    state
}

/// Whether a stage ends the request: terminal success or terminal failure.
pub open spec fn is_terminal(s: StageSpec) -> bool {
    s is Formatted || s is Failed
}

/// A terminal stage absorbs every further event: a failure ends the request,
/// and a formatted serial number is immutable once produced.
pub proof fn lemma_terminal_absorbing(s: StageSpec, e: EventSpec)
    requires
        is_terminal(s),
    ensures
        spec_step(s, e) == s,
{
}

/// Presence polling succeeds exactly when the observed event state includes
/// the "present" bit: the poll never leaves the waiting stage while the bit
/// is excluded, and the first state that includes it ends the polling — the
/// next pending action is connecting to the card, not another query.
pub proof fn lemma_presence_polling(reader: Seq<char>, current: u64, event_state: u64)
    ensures
        spec_step(
            StageSpec::AwaitingPresence(reader, current),
            EventSpec::StatusChanged(Result::Ok(event_state)),
        ) == if spec_present(event_state) {
            StageSpec::CardPresent(reader)
        } else {
            StageSpec::AwaitingPresence(reader, event_state)
        },
        spec_present(event_state) ==> spec_action(
            spec_step(
                StageSpec::AwaitingPresence(reader, current),
                EventSpec::StatusChanged(Result::Ok(event_state)),
            ),
        ) == Option::Some(ActionSpec::Connect(reader)),
{
}

} // verus!
