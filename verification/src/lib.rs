//! Process creation and deletion monitoring over WMI.
//!
//! A subscription becomes a WQL notification query ([`query`]). A listener thread connects to
//! WMI ([`connect`]), starts the query ([`start`]) and polls it ([`monitor`], [`protocol`]). The
//! event objects that WMI returns become process events ([`event`]). Callers create, query and
//! close the one listener of the process through its event sink ([`sink`]).
//!
//! This crate decides; it performs no call into the system itself. Whoever drives it performs
//! the call that is due, hands back what came of it, and is told what comes next.

pub mod connect;
pub mod error;
pub mod event;
pub mod monitor;
pub mod number;
pub mod protocol;
pub mod query;
pub mod sink;
pub mod start;
pub mod text;
