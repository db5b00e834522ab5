//! The engine: owner of the request server's lifecycle and of the
//! supervisory loop's decisions.  The loop itself — waiting on an interrupt
//! or a one-second timer — runs outside; each resolved wait is handed in as
//! an event, and the returned action says whether to emit a status payload
//! or to leave the loop.  The shared shutdown flag is set by an interrupt
//! and never reset within an engine's lifetime.

use vstd::prelude::*;
use crate::config::{EngineConfig, ModelConfig};
use crate::num::dec_str;
use crate::num::u64_to_dec;
use crate::server::{ApiServer, ServerPhase};
use crate::text::str_eq;

verus! {

/// Outcome of an engine operation.
#[derive(Clone, Copy, Debug, PartialEq, Eq, Structural)]
pub enum EngineState {
    Success,
    EngineConfigLoadFailed,
    EngineInitFailed,
    EngineRunFailed,
    EngineReleaseFailed,
}

impl EngineState {
    /// A fixed description of the outcome.
    pub fn message(&self) -> (r: String)
        ensures
            *self == EngineState::Success ==> r@ == "Success"@,
            *self == EngineState::EngineConfigLoadFailed ==> r@ == "Engine config load failed"@,
            *self == EngineState::EngineInitFailed ==> r@ == "Engine initialization failed"@,
            *self == EngineState::EngineRunFailed ==> r@ == "Engine run failed"@,
            *self == EngineState::EngineReleaseFailed ==> r@ == "Engine release failed"@,
    {
        match self {
            EngineState::Success => String::from_str("Success"),
            EngineState::EngineConfigLoadFailed => String::from_str("Engine config load failed"),
            EngineState::EngineInitFailed => String::from_str("Engine initialization failed"),
            EngineState::EngineRunFailed => String::from_str("Engine run failed"),
            EngineState::EngineReleaseFailed => String::from_str("Engine release failed"),
        }
    }
}

/// What resolved the supervisory loop's wait: the external interrupt, or
/// the one-second timer.
#[derive(Clone, Copy, Debug, PartialEq, Eq, Structural)]
pub enum RunEvent {
    Interrupted,
    TickElapsed,
}

/// What the loop should do next: emit one status payload and wait again, or
/// leave the loop.
#[derive(Clone, Copy, Debug, PartialEq, Eq, Structural)]
pub enum RunAction {
    EmitPayload,
    ExitLoop,
}

/// The server state a status payload reports.
#[derive(Clone, Copy, Debug, PartialEq, Eq, Structural)]
pub enum ReportedServer {
    Running,
    Stopped,
    NotInitialized,
}

/// The periodic status record: built fresh on each tick, logged, and
/// discarded.
#[derive(Clone, Debug)]
pub struct MetadataPayload {
    pub timestamp_secs: u64,
    pub engine_id: u64,
    pub version: String,
    pub status: String,
    pub api_server_status: ReportedServer,
    pub config_loaded: bool,
    pub device_count: usize,
}

/// The supervisory object: the request server it owns, device bookkeeping,
/// its configuration, and the cooperative shutdown flag.
#[derive(Clone, Debug)]
pub struct Engine {
    /// The owned request server, present between init and release.
    pub api_server: Option<ApiServer>,
    /// Device identifier bookkeeping.
    pub device_id_table: Vec<i32>,
    /// Path of the loaded configuration file, empty when none was loaded.
    pub config_filepath: String,
    /// Engine settings.
    pub config: EngineConfig,
    /// The cooperative shutdown flag: set by an interrupt, never reset.
    pub should_exit: bool,
}

/// The action the supervisory loop takes for an event: an interrupt always
/// exits, a tick exits once the shutdown flag is set and otherwise emits
/// one payload.
pub open spec fn run_step_action(e: Engine, event: RunEvent) -> RunAction {
    if event == RunEvent::Interrupted {
        RunAction::ExitLoop
    } else if e.should_exit {
        RunAction::ExitLoop
    } else {
        RunAction::EmitPayload
    }
}

/// The server state a payload built from this engine reports.
pub open spec fn reported_server_of(e: Engine) -> ReportedServer {
    match e.api_server {
        Option::Some(s) => if s.phase == ServerPhase::Running {
            ReportedServer::Running
        } else {
            ReportedServer::Stopped
        },
        Option::None => ReportedServer::NotInitialized,
    }
}

/// Whether a payload is the one this engine builds for a clock reading and
/// an engine identifier.
pub open spec fn payload_matches(e: Engine, p: MetadataPayload, now: u64, id: u64) -> bool {
    &&& p.timestamp_secs == now
    &&& p.engine_id == id
    &&& p.version@ == "1.0.0"@
    &&& p.status@ == "active"@
    &&& p.api_server_status == reported_server_of(e)
    &&& p.config_loaded == (e.config_filepath@.len() > 0)
    &&& p.device_count == e.device_id_table@.len()
}

impl Engine {
    /// Whether the owned request server's accept loop is running.
    pub open spec fn server_running(self) -> bool {
        match self.api_server {
            Option::Some(s) => s.phase == ServerPhase::Running,
            Option::None => false,
        }
    }

    /// A fresh engine: no server, no devices, no configuration file, the
    /// built-in settings, and the shutdown flag clear.
    pub fn new() -> (r: Engine)
        ensures
            r.api_server is None,
            r.device_id_table@ == Seq::<i32>::empty(),
            r.config_filepath@ == Seq::<char>::empty(),
            r.config.common.api_port == 5000,
            !r.should_exit,
    {
        Engine {
            api_server: None,
            device_id_table: Vec::new(),
            config_filepath: String::new(),
            config: EngineConfig::default(),
            should_exit: false,
        }
    }

    /// A fresh engine whose server port is taken from a model
    /// configuration.
    pub fn new_with_model_config(model_config: &ModelConfig) -> (r: Engine)
        ensures
            r.api_server is None,
            r.device_id_table@ == Seq::<i32>::empty(),
            r.config_filepath@ == Seq::<char>::empty(),
            r.config.common.api_port == model_config.engine_port as u16,
            !r.should_exit,
    {
        let mut config = EngineConfig::default();
        config.common.api_port = model_config.engine_port as u16;
        Engine {
            api_server: None,
            device_id_table: Vec::new(),
            config_filepath: String::new(),
            config,
            should_exit: false,
        }
    }

    /// A fresh engine behind an owning pointer.
    pub fn create_shared_engine() -> (r: Box<Engine>)
        ensures
            r.api_server is None,
            r.device_id_table@ == Seq::<i32>::empty(),
            r.config_filepath@ == Seq::<char>::empty(),
            r.config.common.api_port == 5000,
            !r.should_exit,
    {
        Box::new(Engine::new())
    }

    /// Records where the configuration came from and applies what the
    /// caller loaded.  The model-configuration file "models.json" is not an
    /// engine configuration and is deliberately skipped; for any other path
    /// the caller reads and parses the file, handing in the result, and a
    /// failed load leaves the settings unchanged.
    pub fn load_config(&mut self, filepath: &str, loaded: Option<EngineConfig>) -> (r: EngineState)
        ensures
            final(self).config_filepath@ == filepath@,
            final(self).api_server == old(self).api_server,
            final(self).device_id_table == old(self).device_id_table,
            final(self).should_exit == old(self).should_exit,
            filepath@ == "models.json"@ ==> r == EngineState::Success && final(self).config
                == old(self).config,
            filepath@ != "models.json"@ && loaded is Some ==> r == EngineState::Success
                && final(self).config == loaded->0,
            filepath@ != "models.json"@ && loaded is None ==> r
                == EngineState::EngineConfigLoadFailed && final(self).config == old(self).config,
    {
        self.config_filepath = filepath.to_owned();
        if str_eq(filepath, "models.json") {
            return EngineState::Success;
        }
        match loaded {
            Some(config) => {
                self.config = config;
                EngineState::Success
            },
            None => EngineState::EngineConfigLoadFailed,
        }
    }

    /// Installs the request server after the caller has tried to bind
    /// 0.0.0.0 on the configured port and to start the accept loop.  A
    /// failed bind is fatal to initialization and leaves no server handle.
    pub fn init(&mut self, bind_ok: bool) -> (r: EngineState)
        ensures
            final(self).device_id_table == old(self).device_id_table,
            final(self).config_filepath == old(self).config_filepath,
            final(self).config == old(self).config,
            final(self).should_exit == old(self).should_exit,
            bind_ok ==> r == EngineState::Success && (final(self).api_server matches Some(s)
                && s.host@ == "0.0.0.0"@ && s.port == old(self).config.common.api_port && s.phase
                == ServerPhase::Running),
            !bind_ok ==> r == EngineState::EngineInitFailed && final(self).api_server is None,
    {
        if !bind_ok {
            self.api_server = None;
            return EngineState::EngineInitFailed;
        }
        let mut server = ApiServer::new(String::from_str("0.0.0.0"), self.config.common.api_port);
        server.note_bound();
        server.note_running();
        self.api_server = Some(server);
        EngineState::Success
    }

    /// Takes one supervisory-loop decision.  An interrupt sets the shutdown
    /// flag and exits; a tick exits when the flag is already set and
    /// otherwise asks for one payload.  The flag is never cleared.
    pub fn run_step(&mut self, event: RunEvent) -> (a: RunAction)
        ensures
            a == run_step_action(*old(self), event),
            final(self).should_exit == (old(self).should_exit || event == RunEvent::Interrupted),
            final(self).api_server == old(self).api_server,
            final(self).device_id_table == old(self).device_id_table,
            final(self).config_filepath == old(self).config_filepath,
            final(self).config == old(self).config,
    {
        match event {
            RunEvent::Interrupted => {
                self.should_exit = true;
                RunAction::ExitLoop
            },
            RunEvent::TickElapsed => {
                if self.should_exit {
                    RunAction::ExitLoop
                } else {
                    RunAction::EmitPayload
                }
            },
        }
    }

    /// Winds the loop down after it exits: asks the server to stop and
    /// records that its task has completed, releasing the port.
    pub fn finish_run(&mut self) -> (r: EngineState)
        ensures
            r == EngineState::Success,
            !final(self).server_running(),
            final(self).should_exit == old(self).should_exit,
            final(self).device_id_table == old(self).device_id_table,
            final(self).config_filepath == old(self).config_filepath,
            final(self).config == old(self).config,
            old(self).api_server is None ==> final(self).api_server is None,
            old(self).api_server matches Some(s) ==> (final(self).api_server matches Some(t)
                && t.host == s.host && t.port == s.port && t.phase == (if s.phase
                == ServerPhase::Running || s.phase == ServerPhase::Stopping {
                ServerPhase::Stopped
            } else {
                s.phase
            })),
    {
        match &mut self.api_server {
            Some(server) => {
                server.stop();
                if matches!(server.phase, ServerPhase::Stopping) {
                    server.note_stopped();
                }
                EngineState::Success
            },
            None => EngineState::Success,
        }
    }

    /// Releases the engine's resources: stops the server if one is present
    /// and clears the handle.  Safe to call in any state, any number of
    /// times.
    pub fn release(&mut self) -> (r: EngineState)
        ensures
            r == EngineState::Success,
            final(self).api_server is None,
            !final(self).server_running(),
            final(self).should_exit == old(self).should_exit,
            final(self).device_id_table == old(self).device_id_table,
            final(self).config_filepath == old(self).config_filepath,
            final(self).config == old(self).config,
    {
        match &mut self.api_server {
            Some(server) => {
                server.stop();
            },
            None => {},
        }
        self.api_server = None;
        EngineState::Success
    }

    /// Builds the periodic status payload for a clock reading and an engine
    /// identifier.
    pub fn create_metadata_payload(&self, now_secs: u64, engine_id: u64) -> (p: MetadataPayload)
        ensures
            payload_matches(*self, p, now_secs, engine_id),
    {
        let api_server_status = match &self.api_server {
            Some(s) => {
                if s.is_running() {
                    ReportedServer::Running
                } else {
                    ReportedServer::Stopped
                }
            },
            None => ReportedServer::NotInitialized,
        };
        MetadataPayload {
            timestamp_secs: now_secs,
            engine_id,
            version: String::from_str("1.0.0"),
            status: String::from_str("active"),
            api_server_status,
            config_loaded: !self.config_filepath.as_str().is_empty(),
            device_count: self.device_id_table.len(),
        }
    }
}

impl Default for Engine {
    /// The same engine `new` builds.
    fn default() -> (r: Engine)
        ensures
            r.api_server is None,
            r.device_id_table@ == Seq::<i32>::empty(),
            r.config_filepath@ == Seq::<char>::empty(),
            r.config.common.api_port == 5000,
            !r.should_exit,
    {
        Engine::new()
    }
}

/// The wording a payload reports the server state with.
pub open spec fn reported_server_text(s: ReportedServer) -> Seq<char> {
    match s {
        ReportedServer::Running => "running"@,
        ReportedServer::Stopped => "stopped"@,
        ReportedServer::NotInitialized => "not_initialized"@,
    }
}

/// The wording of a truth value in a payload.
pub open spec fn bool_text(b: bool) -> Seq<char> {
    if b {
        "true"@
    } else {
        "false"@
    }
}

/// The rendered form of a payload.
pub open spec fn payload_text(p: MetadataPayload) -> Seq<char> {
    "{\"metadata\": {\"timestamp\": \""@ + dec_str(p.timestamp_secs as nat)
        + "\", \"engine_id\": \"engine_"@ + dec_str(p.engine_id as nat) + "\", \"version\": \""@
        + p.version@ + "\", \"status\": \""@ + p.status@ + "\", \"api_server_status\": \""@
        + reported_server_text(p.api_server_status) + "\", \"config_loaded\": \""@ + bool_text(
        p.config_loaded,
    ) + "\", \"device_count\": "@ + dec_str(p.device_count as nat) + "}}"@
}

impl MetadataPayload {
    /// Renders the payload as the JSON text that is logged.
    pub fn render(&self) -> (r: String)
        ensures
            r@ == payload_text(*self),
    {
        let mut r = String::from_str("{\"metadata\": {\"timestamp\": \"");
        let ts = u64_to_dec(self.timestamp_secs);
        r.append(ts.as_str());
        r.append("\", \"engine_id\": \"engine_");
        let id = u64_to_dec(self.engine_id);
        r.append(id.as_str());
        r.append("\", \"version\": \"");
        r.append(self.version.as_str());
        r.append("\", \"status\": \"");
        r.append(self.status.as_str());
        r.append("\", \"api_server_status\": \"");
        match self.api_server_status {
            ReportedServer::Running => r.append("running"),
            ReportedServer::Stopped => r.append("stopped"),
            ReportedServer::NotInitialized => r.append("not_initialized"),
        }
        r.append("\", \"config_loaded\": \"");
        if self.config_loaded {
            r.append("true");
        } else {
            r.append("false");
        }
        r.append("\", \"device_count\": ");
        let dc = u64_to_dec(self.device_count as u64);
        r.append(dc.as_str());
        r.append("}}");
        proof {
            assert(r@ =~= payload_text(*self));
        }
        r
    }
}

/// Law: once the shutdown flag is set, the very next loop step exits,
/// whichever event resolves the wait first — so a set flag is observed
/// within one tick interval.
pub proof fn lemma_shutdown_exits_within_one_step(e: Engine, event: RunEvent)
    requires
        e.should_exit,
    ensures
        run_step_action(e, event) == RunAction::ExitLoop,
{
}

/// Law: two payloads built from one engine state for the same identifier at
/// strictly increasing clock readings carry strictly increasing timestamps
/// and agree on every other field.
pub proof fn lemma_payloads_tick_monotone(
    e: Engine,
    p1: MetadataPayload,
    p2: MetadataPayload,
    t1: u64,
    t2: u64,
    id: u64,
)
    requires
        t1 < t2,
        payload_matches(e, p1, t1, id),
        payload_matches(e, p2, t2, id),
    ensures
        p1.timestamp_secs < p2.timestamp_secs,
        p1.engine_id == p2.engine_id,
        p1.version@ == p2.version@,
        p1.status@ == p2.status@,
        p1.api_server_status == p2.api_server_status,
        p1.config_loaded == p2.config_loaded,
        p1.device_count == p2.device_count,
{
}

} // verus!
