use llmrc::config::{EngineConfig, ModelConfig};
use llmrc::engine::{Engine, EngineState, ReportedServer, RunAction, RunEvent};
use llmrc::server::{ApiServer, ServerPhase};

#[test]
fn test_engine_creation() {
    let engine = Engine::new();
    assert!(engine.api_server.is_none());
    assert!(engine.config_filepath.is_empty());
}

#[test]
fn test_engine_state_display() {
    assert_eq!(EngineState::Success.message(), "Success");
    assert_eq!(EngineState::EngineInitFailed.message(), "Engine initialization failed");
}

#[test]
fn test_engine_lifecycle() {
    let mut engine = Engine::new();
    let _init_result = engine.init(true);
    let release_result = engine.release();
    assert_eq!(release_result, EngineState::Success);
}

#[test]
fn test_engine_port_from_model_config() {
    let mut mc = ModelConfig::default();
    mc.engine_port = 8123;
    let engine = Engine::new_with_model_config(&mc);
    assert_eq!(engine.config.common.api_port, 8123);
    let boxed = Engine::create_shared_engine();
    assert_eq!(boxed.config.common.api_port, 5000);
}

#[test]
fn test_engine_init_failure_leaves_no_server() {
    let mut engine = Engine::new();
    assert_eq!(engine.init(false), EngineState::EngineInitFailed);
    assert!(engine.api_server.is_none());
}

#[test]
fn test_engine_init_installs_running_server() {
    let mut engine = Engine::new();
    assert_eq!(engine.init(true), EngineState::Success);
    let server = engine.api_server.as_ref().unwrap();
    assert_eq!(server.host, "0.0.0.0");
    assert_eq!(server.port, 5000);
    assert!(server.is_running());
}

#[test]
fn test_engine_load_config() {
    let mut engine = Engine::new();
    assert_eq!(engine.load_config("models.json", None), EngineState::Success);
    assert_eq!(engine.config_filepath, "models.json");
    assert_eq!(engine.config.common.api_port, 5000);

    let mut loaded = EngineConfig::default();
    loaded.common.api_port = 9000;
    assert_eq!(engine.load_config("engine.json", Some(loaded)), EngineState::Success);
    assert_eq!(engine.config.common.api_port, 9000);

    assert_eq!(engine.load_config("missing.json", None), EngineState::EngineConfigLoadFailed);
    assert_eq!(engine.config_filepath, "missing.json");
    assert_eq!(engine.config.common.api_port, 9000);
}

#[test]
fn test_run_step_interrupt_sets_flag_and_exits() {
    let mut engine = Engine::new();
    assert_eq!(engine.run_step(RunEvent::TickElapsed), RunAction::EmitPayload);
    assert!(!engine.should_exit);
    assert_eq!(engine.run_step(RunEvent::Interrupted), RunAction::ExitLoop);
    assert!(engine.should_exit);
    assert_eq!(engine.run_step(RunEvent::TickElapsed), RunAction::ExitLoop);
    assert!(engine.should_exit);
}

#[test]
fn test_shutdown_flag_observed_within_one_tick() {
    let mut engine = Engine::new();
    engine.init(true);
    engine.run_step(RunEvent::Interrupted);
    assert_eq!(engine.run_step(RunEvent::TickElapsed), RunAction::ExitLoop);
    assert_eq!(engine.finish_run(), EngineState::Success);
    let server = engine.api_server.as_ref().unwrap();
    assert!(!server.is_running());
    assert_eq!(server.phase, ServerPhase::Stopped);
}

#[test]
fn test_release_is_idempotent() {
    let mut engine = Engine::new();
    engine.init(true);
    assert_eq!(engine.release(), EngineState::Success);
    assert!(engine.api_server.is_none());
    assert_eq!(engine.release(), EngineState::Success);
    assert!(engine.api_server.is_none());
}

#[test]
fn test_payloads_increase_and_keep_shape() {
    let mut engine = Engine::new();
    engine.init(true);
    let p1 = engine.create_metadata_payload(100, 42);
    let p2 = engine.create_metadata_payload(101, 42);
    assert!(p1.timestamp_secs < p2.timestamp_secs);
    assert_eq!(p1.engine_id, p2.engine_id);
    assert_eq!(p1.version, p2.version);
    assert_eq!(p1.status, p2.status);
    assert_eq!(p1.api_server_status, p2.api_server_status);
    assert_eq!(p1.config_loaded, p2.config_loaded);
    assert_eq!(p1.device_count, p2.device_count);
}

#[test]
fn test_payload_contents_and_render() {
    let mut engine = Engine::new();
    engine.init(true);
    let p = engine.create_metadata_payload(1700000000, 77);
    assert_eq!(p.timestamp_secs, 1700000000);
    assert_eq!(p.engine_id, 77);
    assert_eq!(p.version, "1.0.0");
    assert_eq!(p.status, "active");
    assert_eq!(p.api_server_status, ReportedServer::Running);
    assert!(!p.config_loaded);
    assert_eq!(p.device_count, 0);
    assert_eq!(
        p.render(),
        "{\"metadata\": {\"timestamp\": \"1700000000\", \"engine_id\": \"engine_77\", \"version\": \"1.0.0\", \"status\": \"active\", \"api_server_status\": \"running\", \"config_loaded\": \"false\", \"device_count\": 0}}"
    );
}

#[test]
fn test_payload_reports_missing_server() {
    let engine = Engine::new();
    let p = engine.create_metadata_payload(5, 1);
    assert_eq!(p.api_server_status, ReportedServer::NotInitialized);
}

#[test]
fn test_server_phase_transitions() {
    let mut server = ApiServer::new("0.0.0.0".to_string(), 5000);
    assert_eq!(server.phase, ServerPhase::Created);
    server.stop();
    assert_eq!(server.phase, ServerPhase::Created);
    server.note_bound();
    assert_eq!(server.phase, ServerPhase::Bound);
    server.note_running();
    assert!(server.is_running());
    server.stop();
    assert_eq!(server.phase, ServerPhase::Stopping);
    assert!(!server.is_running());
    server.note_stopped();
    assert_eq!(server.phase, ServerPhase::Stopped);
    server.stop();
    assert_eq!(server.phase, ServerPhase::Stopped);
}
