//! Dial-plan resolution for a private branch exchange.
//!
//! A dialed or incoming number is reduced to its digits, brought into one
//! canonical form, and matched against two fixed routing tables. The result
//! is either an internal extension, an external destination together with
//! the trunk to place it on, or a reason why no route exists.
//!
//! The modules follow a call on its way:
//!
//! - [`request`] reads what is known of the call, line by line;
//! - [`digits`] keeps the digits of free-form input;
//! - [`number`] brings digits into canonical form;
//! - [`extension`] holds the numbers of the internal stations;
//! - [`tables`] holds the two routing tables;
//! - [`resolver`] decides the route;
//! - [`outcome`] is the decision;
//! - [`reply`] puts the decision into command lines.
//!
//! Nothing here reads or writes anything: texts come in, and values and
//! texts go out.

pub mod digits;
pub mod extension;
pub mod number;
pub mod outcome;
pub mod reply;
pub mod request;
pub mod resolver;
pub mod tables;
pub mod text;
