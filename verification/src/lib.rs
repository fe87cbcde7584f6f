//! Lifecycle management for a small web service that is reachable both
//! directly and through an onion service kept alive by a helper process.
//!
//! The crate holds the decisions: how the helper is supervised, how its
//! address is discovered and shared, how shutdown is coordinated and how the
//! overall outcome is computed. Drivers perform the I/O that the decisions ask
//! for and report back what happened.
//!
//! - [`supervisor`] keeps the helper running within its restart budget.
//! - [`discovery`] finds the onion address in the output of the helper's
//!   address query and publishes it into the address cell of [`cell`];
//!   [`address`] says what an address is, over the lines of [`text`] and the
//!   regular expressions of [`pattern`].
//! - [`shutdown`] is the broadcast that stops everything.
//! - [`orchestrator`] orders the startup and settles the overall outcome, with
//!   the port of [`port`] and the failures of [`error`].
//! - [`helper`] holds the command lines that the drivers run.
//! - [`pages`] renders what the listeners answer with.

pub mod address;
pub mod cell;
pub mod discovery;
pub mod error;
pub mod helper;
pub mod orchestrator;
pub mod pages;
pub mod pattern;
pub mod port;
pub mod shutdown;
pub mod supervisor;
pub mod text;
