//! Bootstrapping of a hardware-accelerated rendering context, as verified
//! decisions: the order in which the window, the graphics instance, the
//! diagnostics messenger and the presentation surface are made and released,
//! what the instance is created from, and how diagnostics reach the log.
//! The native calls themselves are made by the caller, step by step, as the
//! context asks for them.

mod config;
mod diagnostics;
mod error;
mod gestalt;
mod instance;
mod peer;

pub use config::{ClientConfig, ClientConfigBuilder, ServerAddr, ServerConfig, ServerConfigBuilder};
pub use diagnostics::{
    diagnostic_line, format_diagnostic, handle_diagnostic, int_text, lemma_severity_routing,
    level_of, message_type_text, messenger_severity_mask, messenger_type_mask, opt_text,
    route_diagnostic, severity_of, LogLevel, LogRecord, MessageType, Severity,
};
pub use error::{ConfigError, GpuError, GpuResult, MandalaError, MandalaResult};
pub use gestalt::{
    creation_order, lemma_destroy_idempotent, lemma_no_devices_fails, lemma_release_reverses_creation,
    lemma_success_is_ready, live, failure_error, step_error, succeeds, release_order, release_plan, step_at, Action, ActionView,
    ContextState, Gestalt, GestaltConfig, GestaltView, Gpu, Outcome, Resource, Step,
};
pub use instance::{
    added_extensions, api_version, enabled_layers, instance_plan, packed_version, texts, Extension,
    InstancePlan, APPLICATION_NAME, VALIDATION_LAYER,
};
pub use peer::{next_phase, phase_color, MandalaClient, MandalaServer};
