//! The structured log records that the planet reports to the game's log.
//!
//! Every record names the planet as its sender and addresses either the
//! orchestrator or the explorer that the event concerns. Its payload holds a
//! single entry, whose key says what the record is about and whose value is
//! the message of the caller. Turning a record into a timestamped event and
//! writing it out is left to the program around the library.

use vstd::prelude::*;

verus! {

/// Identifier of the orchestrator in the records that the planet addresses to it.
pub const ORCH_ID: u32 = 1u32;

/// The role of an actor named in a record.
#[derive(Debug, Clone, Copy, PartialEq, Eq, Structural)]
pub enum Actor {
    Planet,
    Explorer,
    Orchestrator,
    User,
    Broadcast,
    SelfActor,
}

/// The channel (severity) on which a record is written.
#[derive(Debug, Clone, Copy, PartialEq, Eq, Structural)]
pub enum LogChannel {
    Error,
    Warning,
    Info,
    Debug,
    Trace,
}

/// The category of the event that a record reports.
#[derive(Debug, Clone, Copy, PartialEq, Eq, Structural)]
pub enum LogEventType {
    MessagePlanetToOrchestrator,
    MessageOrchestratorToPlanet,
    MessagePlanetToExplorer,
    MessageOrchestratorToExplorer,
    MessageExplorerToPlanet,
    MessageExplorerToOrchestrator,
    InternalPlanetAction,
    InternalExplorerAction,
    InternalOrchestratorAction,
    UserToPlanet,
    UserToExplorer,
    UserToOrchestrator,
}

/// One side of a recorded interaction: an actor and its identifier.
#[derive(Debug, Clone, Copy, PartialEq, Eq, Structural)]
pub struct LogParticipant {
    pub actor: Actor,
    pub id: u32,
}

/// What a record is about; each kind has its own payload key, event type,
/// channel and kind of receiver.
#[derive(Debug, Clone, Copy, PartialEq, Eq, Structural)]
pub enum LogKind {
    AiState,
    ExplorerTransit,
    ResourceCreated,
    NotCreatedResource,
    InternalState,
    AsteroidImpact,
    CellCharge,
    SupportedResources,
    GenerationRules,
}

/// A log record, before it is stamped with the time and written out.
#[derive(Debug)]
pub struct LogRecord {
    pub sender: Option<LogParticipant>,
    pub receiver: Option<LogParticipant>,
    pub event_type: LogEventType,
    pub channel: LogChannel,
    pub payload: Vec<(String, String)>,
}

/// The mathematical value of a [`LogRecord`]: its payload as a sequence of
/// key and value character sequences.
pub struct LogRecordView {
    pub sender: Option<LogParticipant>,
    pub receiver: Option<LogParticipant>,
    pub event_type: LogEventType,
    pub channel: LogChannel,
    pub payload: Seq<(Seq<char>, Seq<char>)>,
}

impl View for LogRecord {
    type V = LogRecordView;

    open spec fn view(&self) -> LogRecordView {
        LogRecordView {
            sender: self.sender,
            receiver: self.receiver,
            event_type: self.event_type,
            channel: self.channel,
            payload: self.payload@.map_values(|e: (String, String)| (e.0@, e.1@)),
        }
    }
}

/// The payload key of each kind of record.
pub open spec fn kind_key(kind: LogKind) -> Seq<char> {
    match kind {
        LogKind::AiState => "AI state"@,
        LogKind::ExplorerTransit => "Explorer Transit"@,
        LogKind::ResourceCreated => "Resource created"@,
        LogKind::NotCreatedResource => "Cannot make resource"@,
        LogKind::InternalState => "Internal state"@,
        LogKind::AsteroidImpact => "Asteroid Impact"@,
        LogKind::CellCharge => "Cell charge"@,
        LogKind::SupportedResources => "Supported resources"@,
        LogKind::GenerationRules => "Generation rules"@,
    }
}

/// The event type of each kind of record.
pub open spec fn kind_event_type(kind: LogKind) -> LogEventType {
    match kind {
        LogKind::AiState => LogEventType::MessagePlanetToOrchestrator,
        LogKind::ExplorerTransit => LogEventType::MessagePlanetToOrchestrator,
        LogKind::ResourceCreated => LogEventType::MessageExplorerToPlanet,
        LogKind::NotCreatedResource => LogEventType::MessageExplorerToPlanet,
        LogKind::InternalState => LogEventType::MessagePlanetToOrchestrator,
        LogKind::AsteroidImpact => LogEventType::MessagePlanetToOrchestrator,
        LogKind::CellCharge => LogEventType::MessageOrchestratorToPlanet,
        LogKind::SupportedResources => LogEventType::MessagePlanetToExplorer,
        LogKind::GenerationRules => LogEventType::MessagePlanetToExplorer,
    }
}

/// The channel of each kind of record.
pub open spec fn kind_channel(kind: LogKind) -> LogChannel {
    match kind {
        LogKind::ResourceCreated => LogChannel::Error,
        LogKind::NotCreatedResource => LogChannel::Error,
        _ => LogChannel::Info,
    }
}

/// The orchestrator, as the receiver of a record.
pub open spec fn orchestrator() -> LogParticipant {
    LogParticipant { actor: Actor::Orchestrator, id: ORCH_ID }
}

/// Explorer `explorer_id`, as the receiver of a record.
pub open spec fn explorer(explorer_id: u32) -> LogParticipant {
    LogParticipant { actor: Actor::Explorer, id: explorer_id }
}

/// The record of the given kind that planet `planet_id` sends to `receiver`
/// with message `msg`.
pub open spec fn planet_record(kind: LogKind, msg: Seq<char>, planet_id: u32, receiver: LogParticipant) -> LogRecordView {
    LogRecordView {
        sender: Some(LogParticipant { actor: Actor::Planet, id: planet_id }),
        receiver: Some(receiver),
        event_type: kind_event_type(kind),
        channel: kind_channel(kind),
        payload: seq![(kind_key(kind), msg)],
    }
}


/// The payload key of a record of this kind.
fn key_of(kind: LogKind) -> (key: String)
    ensures
        key@ == kind_key(kind),
{
    match kind {
        LogKind::AiState => "AI state".to_string(),
        LogKind::ExplorerTransit => "Explorer Transit".to_string(),
        LogKind::ResourceCreated => "Resource created".to_string(),
        LogKind::NotCreatedResource => "Cannot make resource".to_string(),
        LogKind::InternalState => "Internal state".to_string(),
        LogKind::AsteroidImpact => "Asteroid Impact".to_string(),
        LogKind::CellCharge => "Cell charge".to_string(),
        LogKind::SupportedResources => "Supported resources".to_string(),
        LogKind::GenerationRules => "Generation rules".to_string(),
    }
}

/// The event type of a record of this kind.
fn event_type_of(kind: LogKind) -> (event_type: LogEventType)
    ensures
        event_type == kind_event_type(kind),
{
    match kind {
        LogKind::AiState => LogEventType::MessagePlanetToOrchestrator,
        LogKind::ExplorerTransit => LogEventType::MessagePlanetToOrchestrator,
        LogKind::ResourceCreated => LogEventType::MessageExplorerToPlanet,
        LogKind::NotCreatedResource => LogEventType::MessageExplorerToPlanet,
        LogKind::InternalState => LogEventType::MessagePlanetToOrchestrator,
        LogKind::AsteroidImpact => LogEventType::MessagePlanetToOrchestrator,
        LogKind::CellCharge => LogEventType::MessageOrchestratorToPlanet,
        LogKind::SupportedResources => LogEventType::MessagePlanetToExplorer,
        LogKind::GenerationRules => LogEventType::MessagePlanetToExplorer,
    }
}

/// The channel of a record of this kind.
fn channel_of(kind: LogKind) -> (channel: LogChannel)
    ensures
        channel == kind_channel(kind),
{
    match kind {
        LogKind::ResourceCreated | LogKind::NotCreatedResource => LogChannel::Error,
        _ => LogChannel::Info,
    }
}

/// Builds the record of the given kind that planet `planet_id` sends to
/// `receiver` with message `msg`.
fn record(kind: LogKind, msg: String, planet_id: u32, receiver: LogParticipant) -> (r: LogRecord)
    ensures
        r@ == planet_record(kind, msg@, planet_id, receiver),
{
    let key = key_of(kind);
    let mut payload: Vec<(String, String)> = Vec::new();
    payload.push((key, msg));
    let r = LogRecord {
        sender: Some(LogParticipant { actor: Actor::Planet, id: planet_id }),
        receiver: Some(receiver),
        event_type: event_type_of(kind),
        channel: channel_of(kind),
        payload,
    };
    assert(r@.payload =~= seq![(kind_key(kind), msg@)]);
    r
}

/// The record in which planet `planet_id` reports the state of its AI to the orchestrator.
pub fn log_ai_state(msg: String, planet_id: u32) -> (r: LogRecord)
    ensures
        r@ == planet_record(LogKind::AiState, msg@, planet_id, orchestrator()),
        r@.sender == Some(LogParticipant { actor: Actor::Planet, id: planet_id }),
        r@.receiver == Some(LogParticipant { actor: Actor::Orchestrator, id: ORCH_ID }),
        r@.event_type == LogEventType::MessagePlanetToOrchestrator,
        r@.channel == LogChannel::Info,
        r@.payload == seq![("AI state"@, msg@)],
{
    record(LogKind::AiState, msg, planet_id, LogParticipant { actor: Actor::Orchestrator, id: ORCH_ID })
}

/// The record in which planet `planet_id` reports an explorer arriving or leaving to the orchestrator.
pub fn log_explorer_transit(msg: String, planet_id: u32) -> (r: LogRecord)
    ensures
        r@ == planet_record(LogKind::ExplorerTransit, msg@, planet_id, orchestrator()),
        r@.sender == Some(LogParticipant { actor: Actor::Planet, id: planet_id }),
        r@.receiver == Some(LogParticipant { actor: Actor::Orchestrator, id: ORCH_ID }),
        r@.event_type == LogEventType::MessagePlanetToOrchestrator,
        r@.channel == LogChannel::Info,
        r@.payload == seq![("Explorer Transit"@, msg@)],
{
    record(LogKind::ExplorerTransit, msg, planet_id, LogParticipant { actor: Actor::Orchestrator, id: ORCH_ID })
}

/// The record in which planet `planet_id` reports a basic resource made for explorer `explorer_id`.
pub fn log_resource_created(msg: String, planet_id: u32, explorer_id: u32) -> (r: LogRecord)
    ensures
        r@ == planet_record(LogKind::ResourceCreated, msg@, planet_id, explorer(explorer_id)),
        r@.sender == Some(LogParticipant { actor: Actor::Planet, id: planet_id }),
        r@.receiver == Some(LogParticipant { actor: Actor::Explorer, id: explorer_id }),
        r@.event_type == LogEventType::MessageExplorerToPlanet,
        r@.channel == LogChannel::Error,
        r@.payload == seq![("Resource created"@, msg@)],
{
    record(LogKind::ResourceCreated, msg, planet_id, LogParticipant { actor: Actor::Explorer, id: explorer_id })
}

/// The record in which planet `planet_id` reports a resource it could not make for explorer `explorer_id`.
pub fn log_not_created_resource(err: String, planet_id: u32, explorer_id: u32) -> (r: LogRecord)
    ensures
        r@ == planet_record(LogKind::NotCreatedResource, err@, planet_id, explorer(explorer_id)),
        r@.sender == Some(LogParticipant { actor: Actor::Planet, id: planet_id }),
        r@.receiver == Some(LogParticipant { actor: Actor::Explorer, id: explorer_id }),
        r@.event_type == LogEventType::MessageExplorerToPlanet,
        r@.channel == LogChannel::Error,
        r@.payload == seq![("Cannot make resource"@, err@)],
{
    record(LogKind::NotCreatedResource, err, planet_id, LogParticipant { actor: Actor::Explorer, id: explorer_id })
}

/// The record in which planet `planet_id` reports its internal state to the orchestrator.
pub fn log_internal_state(msg: String, planet_id: u32) -> (r: LogRecord)
    ensures
        r@ == planet_record(LogKind::InternalState, msg@, planet_id, orchestrator()),
        r@.sender == Some(LogParticipant { actor: Actor::Planet, id: planet_id }),
        r@.receiver == Some(LogParticipant { actor: Actor::Orchestrator, id: ORCH_ID }),
        r@.event_type == LogEventType::MessagePlanetToOrchestrator,
        r@.channel == LogChannel::Info,
        r@.payload == seq![("Internal state"@, msg@)],
{
    record(LogKind::InternalState, msg, planet_id, LogParticipant { actor: Actor::Orchestrator, id: ORCH_ID })
}

/// The record in which planet `planet_id` reports an asteroid hitting it to the orchestrator.
pub fn log_asteroid_impact(msg: String, planet_id: u32) -> (r: LogRecord)
    ensures
        r@ == planet_record(LogKind::AsteroidImpact, msg@, planet_id, orchestrator()),
        r@.sender == Some(LogParticipant { actor: Actor::Planet, id: planet_id }),
        r@.receiver == Some(LogParticipant { actor: Actor::Orchestrator, id: ORCH_ID }),
        r@.event_type == LogEventType::MessagePlanetToOrchestrator,
        r@.channel == LogChannel::Info,
        r@.payload == seq![("Asteroid Impact"@, msg@)],
{
    record(LogKind::AsteroidImpact, msg, planet_id, LogParticipant { actor: Actor::Orchestrator, id: ORCH_ID })
}

/// The record in which planet `planet_id` reports the charge of its energy cells to the orchestrator.
pub fn log_cell_charge(msg: String, planet_id: u32) -> (r: LogRecord)
    ensures
        r@ == planet_record(LogKind::CellCharge, msg@, planet_id, orchestrator()),
        r@.sender == Some(LogParticipant { actor: Actor::Planet, id: planet_id }),
        r@.receiver == Some(LogParticipant { actor: Actor::Orchestrator, id: ORCH_ID }),
        r@.event_type == LogEventType::MessageOrchestratorToPlanet,
        r@.channel == LogChannel::Info,
        r@.payload == seq![("Cell charge"@, msg@)],
{
    record(LogKind::CellCharge, msg, planet_id, LogParticipant { actor: Actor::Orchestrator, id: ORCH_ID })
}

/// The record in which planet `planet_id` reports the resources it supports, for explorer `explorer_id`.
pub fn log_supported_resources(msg: String, planet_id: u32, explorer_id: u32) -> (r: LogRecord)
    ensures
        r@ == planet_record(LogKind::SupportedResources, msg@, planet_id, explorer(explorer_id)),
        r@.sender == Some(LogParticipant { actor: Actor::Planet, id: planet_id }),
        r@.receiver == Some(LogParticipant { actor: Actor::Explorer, id: explorer_id }),
        r@.event_type == LogEventType::MessagePlanetToExplorer,
        r@.channel == LogChannel::Info,
        r@.payload == seq![("Supported resources"@, msg@)],
{
    record(LogKind::SupportedResources, msg, planet_id, LogParticipant { actor: Actor::Explorer, id: explorer_id })
}

/// The record in which planet `planet_id` reports its generation rules, for explorer `explorer_id`.
pub fn log_generation_rules(msg: String, planet_id: u32, explorer_id: u32) -> (r: LogRecord)
    ensures
        r@ == planet_record(LogKind::GenerationRules, msg@, planet_id, explorer(explorer_id)),
        r@.sender == Some(LogParticipant { actor: Actor::Planet, id: planet_id }),
        r@.receiver == Some(LogParticipant { actor: Actor::Explorer, id: explorer_id }),
        r@.event_type == LogEventType::MessagePlanetToExplorer,
        r@.channel == LogChannel::Info,
        r@.payload == seq![("Generation rules"@, msg@)],
{
    record(LogKind::GenerationRules, msg, planet_id, LogParticipant { actor: Actor::Explorer, id: explorer_id })
}

/// The message with which a planet reports that its AI is switched off.
pub open spec fn stopped_ai_msg() -> Seq<char> {
    "AI field `is_on` is false"@
}

/// Whether a handler stops: exactly when the AI is switched off.
pub open spec fn stops(is_on: bool) -> bool {
    !is_on
}

/// What planet `planet_id` reports when a handler checks its AI: nothing
/// while the AI is on, and an AI-state record for the orchestrator when it
/// is off.
pub open spec fn stopped_ai_report(is_on: bool, planet_id: u32) -> Option<LogRecordView> {
    if is_on {
        None
    } else {
        Some(planet_record(LogKind::AiState, stopped_ai_msg(), planet_id, orchestrator()))
    }
}

/// Decides whether a handler should stop because the planet's AI is switched
/// off, and gives the record that planet `planet_id` then reports to the
/// orchestrator: the record is present exactly when the handler stops.
pub fn exit_on_stopped_ai(is_on: bool, planet_id: u32) -> (res: (bool, Option<LogRecord>))
    ensures
        res.0 == stops(is_on),
        res.1 is Some <==> stopped_ai_report(is_on, planet_id) is Some,
        res.1 matches Some(rec) ==> stopped_ai_report(is_on, planet_id) == Some(rec@),
        res.1 matches Some(rec) ==> {
            &&& rec@.sender == Some(LogParticipant { actor: Actor::Planet, id: planet_id })
            &&& rec@.receiver == Some(LogParticipant { actor: Actor::Orchestrator, id: ORCH_ID })
            &&& rec@.event_type == LogEventType::MessagePlanetToOrchestrator
            &&& rec@.channel == LogChannel::Info
            &&& rec@.payload == seq![("AI state"@, "AI field `is_on` is false"@)]
        },
{
    if !is_on {
        (true, Some(log_ai_state("AI field `is_on` is false".to_string(), planet_id)))
    } else {
        (false, None)
    }
}

/// A handler stops exactly when the planet reports that its AI is switched off.
pub proof fn lemma_stop_iff_reported(is_on: bool, planet_id: u32)
    ensures
        stops(is_on) <==> stopped_ai_report(is_on, planet_id) is Some,
{
}

/// Every record names planet `planet_id` as its sender and the given
/// receiver, and carries the message verbatim under the key of its kind as
/// its only payload entry.
pub proof fn lemma_record_shape(kind: LogKind, msg: Seq<char>, planet_id: u32, receiver: LogParticipant)
    ensures
        planet_record(kind, msg, planet_id, receiver).sender == Some(
            LogParticipant { actor: Actor::Planet, id: planet_id },
        ),
        planet_record(kind, msg, planet_id, receiver).receiver == Some(receiver),
        planet_record(kind, msg, planet_id, receiver).payload.len() == 1,
        planet_record(kind, msg, planet_id, receiver).payload[0] == (kind_key(kind), msg),
{
}

/// Distinct kinds of records have distinct payload keys, so the key of a
/// record tells what it is about.
pub proof fn lemma_key_identifies_kind(k1: LogKind, k2: LogKind)
    ensures
        kind_key(k1) == kind_key(k2) ==> k1 == k2,
{
    reveal_strlit("AI state");
    reveal_strlit("Explorer Transit");
    reveal_strlit("Resource created");
    reveal_strlit("Cannot make resource");
    reveal_strlit("Internal state");
    reveal_strlit("Asteroid Impact");
    reveal_strlit("Cell charge");
    reveal_strlit("Supported resources");
    reveal_strlit("Generation rules");
    if kind_key(k1) == kind_key(k2) {
        assert(kind_key(k1)[0] == kind_key(k2)[0]);
        assert(kind_key(k1).len() == kind_key(k2).len());
    }
}

/// What each kind of record says, whatever the message, the planet and the
/// receiver: its event type, its channel, and its payload (the message under
/// the kind's key).
pub proof fn lemma_record_fields(msg: Seq<char>, planet_id: u32, receiver: LogParticipant)
    ensures
        planet_record(LogKind::AiState, msg, planet_id, receiver).event_type == LogEventType::MessagePlanetToOrchestrator,
        planet_record(LogKind::AiState, msg, planet_id, receiver).channel == LogChannel::Info,
        planet_record(LogKind::AiState, msg, planet_id, receiver).payload == seq![("AI state"@, msg)],
        planet_record(LogKind::ExplorerTransit, msg, planet_id, receiver).event_type == LogEventType::MessagePlanetToOrchestrator,
        planet_record(LogKind::ExplorerTransit, msg, planet_id, receiver).channel == LogChannel::Info,
        planet_record(LogKind::ExplorerTransit, msg, planet_id, receiver).payload == seq![("Explorer Transit"@, msg)],
        planet_record(LogKind::ResourceCreated, msg, planet_id, receiver).event_type == LogEventType::MessageExplorerToPlanet,
        planet_record(LogKind::ResourceCreated, msg, planet_id, receiver).channel == LogChannel::Error,
        planet_record(LogKind::ResourceCreated, msg, planet_id, receiver).payload == seq![("Resource created"@, msg)],
        planet_record(LogKind::NotCreatedResource, msg, planet_id, receiver).event_type == LogEventType::MessageExplorerToPlanet,
        planet_record(LogKind::NotCreatedResource, msg, planet_id, receiver).channel == LogChannel::Error,
        planet_record(LogKind::NotCreatedResource, msg, planet_id, receiver).payload == seq![("Cannot make resource"@, msg)],
        planet_record(LogKind::InternalState, msg, planet_id, receiver).event_type == LogEventType::MessagePlanetToOrchestrator,
        planet_record(LogKind::InternalState, msg, planet_id, receiver).channel == LogChannel::Info,
        planet_record(LogKind::InternalState, msg, planet_id, receiver).payload == seq![("Internal state"@, msg)],
        planet_record(LogKind::AsteroidImpact, msg, planet_id, receiver).event_type == LogEventType::MessagePlanetToOrchestrator,
        planet_record(LogKind::AsteroidImpact, msg, planet_id, receiver).channel == LogChannel::Info,
        planet_record(LogKind::AsteroidImpact, msg, planet_id, receiver).payload == seq![("Asteroid Impact"@, msg)],
        planet_record(LogKind::CellCharge, msg, planet_id, receiver).event_type == LogEventType::MessageOrchestratorToPlanet,
        planet_record(LogKind::CellCharge, msg, planet_id, receiver).channel == LogChannel::Info,
        planet_record(LogKind::CellCharge, msg, planet_id, receiver).payload == seq![("Cell charge"@, msg)],
        planet_record(LogKind::SupportedResources, msg, planet_id, receiver).event_type == LogEventType::MessagePlanetToExplorer,
        planet_record(LogKind::SupportedResources, msg, planet_id, receiver).channel == LogChannel::Info,
        planet_record(LogKind::SupportedResources, msg, planet_id, receiver).payload == seq![("Supported resources"@, msg)],
        planet_record(LogKind::GenerationRules, msg, planet_id, receiver).event_type == LogEventType::MessagePlanetToExplorer,
        planet_record(LogKind::GenerationRules, msg, planet_id, receiver).channel == LogChannel::Info,
        planet_record(LogKind::GenerationRules, msg, planet_id, receiver).payload == seq![("Generation rules"@, msg)],
{
}

/// The event type and the channel of a record depend on its kind only: two
/// records of one kind agree on them, whatever their messages, planets and
/// receivers.
pub proof fn lemma_kind_fixes_type_and_channel(
    kind: LogKind,
    msg1: Seq<char>,
    planet1: u32,
    receiver1: LogParticipant,
    msg2: Seq<char>,
    planet2: u32,
    receiver2: LogParticipant,
)
    ensures
        planet_record(kind, msg1, planet1, receiver1).event_type == planet_record(
            kind,
            msg2,
            planet2,
            receiver2,
        ).event_type,
        planet_record(kind, msg1, planet1, receiver1).channel == planet_record(
            kind,
            msg2,
            planet2,
            receiver2,
        ).channel,
{
}

/// When the AI is off, planet `planet_id` reports exactly one AI-state
/// record: sent by that planet to the orchestrator, as a message from planet
/// to orchestrator on the Info channel, carrying the stopped-AI message; while
/// the AI is on it reports nothing.
pub proof fn lemma_stopped_ai_report(is_on: bool, planet_id: u32)
    ensures
        is_on ==> stopped_ai_report(is_on, planet_id) is None,
        !is_on ==> stopped_ai_report(is_on, planet_id) == Some(
            LogRecordView {
                sender: Some(LogParticipant { actor: Actor::Planet, id: planet_id }),
                receiver: Some(LogParticipant { actor: Actor::Orchestrator, id: 1 }),
                event_type: LogEventType::MessagePlanetToOrchestrator,
                channel: LogChannel::Info,
                payload: seq![("AI state"@, "AI field `is_on` is false"@)],
            },
        ),
{
}

} // verus!
