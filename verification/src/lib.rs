//! The core of a gateway between an industrial weighing scale and the
//! clients that watch it.
//!
//! The scale speaks a line-oriented text protocol over TCP. The gateway keeps
//! one connection to it, reads its lines, and passes each one on to every
//! WebSocket client; it takes commands from the clients and sends them to
//! the scale, directly or, where that is not possible, by an HTTP bridge.
//!
//! This library holds what the gateway decides and computes, and proves it
//! against the contracts of its functions. It opens no socket and keeps no
//! time. Where work alternates with decisions, the decisions are a state
//! machine here: its owner does what an action asks for and hands back what
//! happened as the next event.
//!
//! - [`reading`]: the line parser, from a line of the scale to a weight.
//! - [`decimal`]: the weight as an exact decimal number.
//! - [`device`]: the manager of the connection to the scale.
//! - [`hub`]: the broadcast hub, from one publisher to all subscribers.
//! - [`session`]: what a client's frames ask for, and when its session ends.
//! - [`routing`]: the way that a command takes, to the scale or to the bridge.
//! - [`relay`]: the exchange of one command with the scale, for the bridge.
//! - [`text`]: white space, trimming and tokens.

pub mod decimal;
pub mod device;
pub mod hub;
pub mod reading;
pub mod relay;
pub mod routing;
pub mod session;
pub mod text;
