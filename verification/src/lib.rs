//! Core logic of an HTTP request-dispatch bridge.
//!
//! The library turns a parsed inbound request into a structured request
//! record, hands it to an externally installed handler, waits for exactly
//! one response through a single-use channel, and synthesizes error
//! responses for oversized bodies, missing handlers, abandoned requests
//! and timeouts.  The socket handling, the wire parser and the async
//! runtime live outside; every decision the bridge makes is stated in a
//! contract and verified.

mod channel;
mod config;
mod dispatch;
mod lifecycle;
mod request;
mod response;
mod stats;

pub use config::ListenerPlan;
pub use config::ServerConfig;
pub use config::ServerOptions;
pub use config::spec_decimal;
pub use config::spec_host;
pub use config::spec_or_default;
pub use dispatch::BodyOutcome;
pub use dispatch::DispatchError;
pub use dispatch::RawHeader;
pub use dispatch::WaitOutcome;
pub use dispatch::build_url;
pub use dispatch::coerce_headers;
pub use dispatch::error_response;
pub use dispatch::prepare_request;
pub use dispatch::resolve_outcome;
pub use dispatch::spec_coerced_value;
pub use dispatch::spec_headers_coerced;
pub use dispatch::spec_host_part;
pub use dispatch::spec_path_part;
pub use dispatch::spec_message_of;
pub use dispatch::spec_status_of;
pub use dispatch::spec_url;
pub use lifecycle::ServerPhase;
pub use lifecycle::ServerState;
pub use lifecycle::lemma_close_graceful;
pub use lifecycle::spec_admits;
pub use lifecycle::spec_after_close;
pub use request::ChannelState;
pub use request::HeaderPair;
pub use request::RequestContext;
pub use request::RespondError;
pub use request::ResponseSlot;
pub use request::channel_state;
pub use request::lemma_respond_at_most_once;
pub use request::spec_delivered;
pub use request::spec_state_after_respond;
pub use response::JsHeader;
pub use response::JsResponse;
pub use stats::ServerStats;
pub use stats::ServerStatsInner;
pub use stats::StatsModel;
pub use stats::lemma_stats_after_completions;
pub use stats::spec_after_complete;
pub use stats::spec_after_completions;
pub use stats::spec_after_open;
pub use stats::spec_initial_stats;
pub use stats::spec_stats_model;
pub use stats::sum_latencies;
