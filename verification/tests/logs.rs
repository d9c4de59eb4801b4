use ara_kees::logs::{
    exit_on_stopped_ai, log_ai_state, log_asteroid_impact, log_cell_charge, log_explorer_transit,
    log_generation_rules, log_internal_state, log_not_created_resource, log_resource_created,
    log_supported_resources, Actor, LogChannel, LogEventType, LogParticipant,
    LogRecord, ORCH_ID,
};

fn planet(id: u32) -> Option<LogParticipant> {
    Some(LogParticipant { actor: Actor::Planet, id })
}

fn orchestrator() -> Option<LogParticipant> {
    Some(LogParticipant { actor: Actor::Orchestrator, id: ORCH_ID })
}

fn explorer(id: u32) -> Option<LogParticipant> {
    Some(LogParticipant { actor: Actor::Explorer, id })
}

fn payload(key: &str, value: &str) -> Vec<(String, String)> {
    vec![(key.to_string(), value.to_string())]
}

fn check(
    r: &LogRecord,
    sender: Option<LogParticipant>,
    receiver: Option<LogParticipant>,
    event_type: LogEventType,
    channel: LogChannel,
    key: &str,
    value: &str,
) {
    assert_eq!(r.sender, sender);
    assert_eq!(r.receiver, receiver);
    assert_eq!(r.event_type, event_type);
    assert_eq!(r.channel, channel);
    assert_eq!(r.payload, payload(key, value));
}

#[test]
fn orchestrator_is_number_one() {
    assert_eq!(ORCH_ID, 1);
}

#[test]
fn ai_state_record() {
    let r = log_ai_state("on".to_string(), 7);
    check(&r, planet(7), orchestrator(), LogEventType::MessagePlanetToOrchestrator, LogChannel::Info, "AI state", "on");
}

#[test]
fn explorer_transit_record() {
    let r = log_explorer_transit("explorer 3 arrived".to_string(), 2);
    check(&r, planet(2), orchestrator(), LogEventType::MessagePlanetToOrchestrator, LogChannel::Info, "Explorer Transit", "explorer 3 arrived");
}

#[test]
fn resource_created_record() {
    let r = log_resource_created("Oxygen".to_string(), 1, 9);
    check(&r, planet(1), explorer(9), LogEventType::MessageExplorerToPlanet, LogChannel::Error, "Resource created", "Oxygen");
}

#[test]
fn not_created_resource_record() {
    let r = log_not_created_resource("no charged cell".to_string(), 4, 5);
    check(&r, planet(4), explorer(5), LogEventType::MessageExplorerToPlanet, LogChannel::Error, "Cannot make resource", "no charged cell");
}

#[test]
fn internal_state_record() {
    let r = log_internal_state("2 charged cells".to_string(), 11);
    check(&r, planet(11), orchestrator(), LogEventType::MessagePlanetToOrchestrator, LogChannel::Info, "Internal state", "2 charged cells");
}

#[test]
fn asteroid_impact_record() {
    let r = log_asteroid_impact("no rocket".to_string(), 3);
    check(&r, planet(3), orchestrator(), LogEventType::MessagePlanetToOrchestrator, LogChannel::Info, "Asteroid Impact", "no rocket");
}

#[test]
fn cell_charge_record() {
    let r = log_cell_charge("cell 0 charged".to_string(), 6);
    check(&r, planet(6), orchestrator(), LogEventType::MessageOrchestratorToPlanet, LogChannel::Info, "Cell charge", "cell 0 charged");
}

#[test]
fn supported_resources_record() {
    let r = log_supported_resources("Oxygen, Hydrogen, Carbon".to_string(), 8, 2);
    check(&r, planet(8), explorer(2), LogEventType::MessagePlanetToExplorer, LogChannel::Info, "Supported resources", "Oxygen, Hydrogen, Carbon");
}

#[test]
fn generation_rules_record() {
    let r = log_generation_rules("3 rules".to_string(), 8, 0);
    check(&r, planet(8), explorer(0), LogEventType::MessagePlanetToExplorer, LogChannel::Info, "Generation rules", "3 rules");
}

#[test]
fn empty_message_is_kept() {
    let r = log_ai_state(String::new(), 0);
    assert_eq!(r.payload, payload("AI state", ""));
}

#[test]
fn records_of_different_kinds_have_different_keys() {
    let keys: Vec<String> = vec![
        log_ai_state(String::new(), 1).payload[0].0.clone(),
        log_explorer_transit(String::new(), 1).payload[0].0.clone(),
        log_resource_created(String::new(), 1, 1).payload[0].0.clone(),
        log_not_created_resource(String::new(), 1, 1).payload[0].0.clone(),
        log_internal_state(String::new(), 1).payload[0].0.clone(),
        log_asteroid_impact(String::new(), 1).payload[0].0.clone(),
        log_cell_charge(String::new(), 1).payload[0].0.clone(),
        log_supported_resources(String::new(), 1, 1).payload[0].0.clone(),
        log_generation_rules(String::new(), 1, 1).payload[0].0.clone(),
    ];
    for i in 0..keys.len() {
        for j in 0..keys.len() {
            assert_eq!(keys[i] == keys[j], i == j);
        }
    }
}

#[test]
fn handler_stops_when_ai_is_off() {
    let (stop, record) = exit_on_stopped_ai(false, 1);
    assert!(stop);
    let r = record.expect("a record when the AI is off");
    check(&r, planet(1), orchestrator(), LogEventType::MessagePlanetToOrchestrator, LogChannel::Info, "AI state", "AI field `is_on` is false");
}

#[test]
fn stopped_ai_is_reported_for_its_planet() {
    let (stop, record) = exit_on_stopped_ai(false, 42);
    assert!(stop);
    let r = record.expect("a record when the AI is off");
    check(&r, planet(42), orchestrator(), LogEventType::MessagePlanetToOrchestrator, LogChannel::Info, "AI state", "AI field `is_on` is false");
}

#[test]
fn handler_goes_on_when_ai_is_on() {
    for id in [1, 42] {
        let (stop, record) = exit_on_stopped_ai(true, id);
        assert!(!stop);
        assert!(record.is_none());
    }
}

#[test]
fn stop_and_report_agree() {
    for is_on in [false, true] {
        let (stop, record) = exit_on_stopped_ai(is_on, 3);
        assert_eq!(stop, record.is_some());
    }
}

#[test]
fn repeated_calls_agree() {
    for is_on in [false, true] {
        let (s1, r1) = exit_on_stopped_ai(is_on, 7);
        let (s2, r2) = exit_on_stopped_ai(is_on, 7);
        assert_eq!(s1, s2);
        assert_eq!(r1.map(|r| r.payload), r2.map(|r| r.payload));
    }
}
