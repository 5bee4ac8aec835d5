//! Core of a configurable load-testing engine.
//!
//! The library holds the run-time orchestration logic of the engine: the
//! scenario and step model, the duration-string conversions, the one-shot
//! stop signal, the virtual-client run loops, the raw request/response
//! framing, and the per-step metrics aggregation. Everything here is
//! verified; the process wiring (sockets, timers, the async runtime, YAML
//! loading and terminal output) lives outside the library and drives these
//! state machines with plain values.

pub mod coordinator;
pub mod duration;
pub mod errors;
pub mod http_client;
pub mod request;
pub mod scenario;
pub mod step;
pub mod stop;
pub mod test_client;
pub mod test_http_client;
pub mod test_mqtt_client;
