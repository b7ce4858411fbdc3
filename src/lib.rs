//! Connectivity lifecycle controller for a networked sensor device: topic and
//! payload derivation, the event listener's reaction to session events, the
//! telemetry loop and the outer supervisor, each as a verified state machine
//! that a thin driver runs against the radio and messaging stacks.

pub mod listener;
pub mod payload;
pub mod policy;
pub mod session;
pub mod state;
pub mod supervisor;
pub mod telemetry;
pub mod topics;

pub use listener::{drain, DisconnectSignal, EventListener, ListenerStep, SessionEvent};
pub use payload::{push_decimal, push_fixed2, status_payload, telemetry_payload, Reading};
pub use policy::{
    LinkFaultPolicy, KEEP_ALIVE_SECS, LINK_RETRY_MS, SESSION_RESTART_MS, SUBSCRIBE_RETRY_MS,
    TELEMETRY_PERIOD_MS,
};
pub use state::ConnectivityState;
pub use topics::{broker_url, device_topic, shadow_topic, DeviceIdentity, TopicSet};
pub use telemetry::{LoopAction, LoopPhase, TelemetryLoop};
pub use session::SessionConfig;
pub use supervisor::{Supervisor, SupervisorAction, SupervisorEvent};
