//! A protocol gateway's state engine: the device table with its single
//! mutation path, the fan-out of accepted changes to listeners, the event loop
//! that serialises every mutation, and the decisions of the adapters that feed
//! it. The adapters, the listeners and the request surface do the waiting,
//! reading and sending; everything they decide, they decide here.
//!
//! Beside the engine stand the text and number helpers that the engine's
//! messages are built with, and a collection of small programs
//! ([`practice`]).

pub mod bootstrap;
pub mod broker;
pub mod config;
pub mod decode;
pub mod device;
pub mod dispatcher;
pub mod lifecycle;
pub mod logging;
pub mod numbers;
pub mod orchestrator;
pub mod poller;
pub mod practice;
pub mod scan;
pub mod shutdown;
pub mod state;
pub mod store;
pub mod text;
pub mod transport;
