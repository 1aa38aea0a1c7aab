//! Decisions of a ground station that holds a vehicle on a heading.
//!
//! The station talks to the vehicle over a MAVLink link. It keeps the link
//! alive with a periodic heartbeat, picks the attitude reports out of the
//! inbound telemetry, and answers each control iteration with one
//! manual-control command. This crate holds the rules of that loop:
//!
//! - [`link`]: what follows a receive or a send: go on, back off, or end;
//! - [`heartbeat`]: when the heartbeat emitter sleeps;
//! - [`telemetry`]: which message is decoded, and how a report replaces the
//!   snapshot ([`attitude`]);
//! - [`controller`]: the control law and its state;
//! - [`dispatch`]: which of four command profiles is chosen;
//! - [`iteration`] and [`task`]: one control iteration as a whole;
//! - [`message`]: what the outbound messages carry;
//! - [`codec`]: the calls into the message codec.
//!
//! Numbers that travel as IEEE-754 single-precision values are held by their
//! bit patterns ([`single`]). Order, sign and the cut to an integer are
//! decided on the bits; sums, products and quotients come from an arithmetic
//! unit that the caller supplies ([`arithmetic`]).

pub mod single;
pub mod arithmetic;
pub mod attitude;
pub mod link;
pub mod codec;
pub mod telemetry;
pub mod message;
pub mod controller;
pub mod dispatch;
pub mod heartbeat;
pub mod iteration;
pub mod task;

pub use crate::single::Single;
pub use crate::attitude::Attitude;
pub use crate::attitude::AttitudeReport;
pub use crate::link::Fault;
pub use crate::link::LoopAction;
pub use crate::link::Reception;
pub use crate::codec::Decoded;
pub use crate::telemetry::Ingest;
pub use crate::telemetry::Received;
pub use crate::telemetry::Route;
pub use crate::message::Message;
pub use crate::message::heartbeat_message;
pub use crate::message::request_parameters;
pub use crate::message::request_stream;
pub use crate::message::set_manual_control;
pub use crate::message::manual_control;
pub use crate::message::handshake;
pub use crate::controller::ControllerState;
pub use crate::controller::Gains;
pub use crate::dispatch::Profile;
pub use crate::heartbeat::EmitterAction;
pub use crate::arithmetic::Op;
pub use crate::iteration::Iteration;
pub use crate::iteration::iterate;
pub use crate::task::ControlTask;
