//! The event-ingestion and session-multiplexing engine of a small daemon that
//! bridges a compositor's line-oriented event stream to local clients: a
//! verified parser from event lines to a closed typed event model, the typed
//! command protocol clients speak to the daemon, and the bookkeeping of the
//! cooperative main loop that fans events out to long-lived per-client steps.

pub mod commands;
pub mod daemon;
pub mod events;
pub mod eww;
pub mod framing;
pub mod hyprctl;
pub mod numbers;
pub mod parser;
pub mod remote;
pub mod strutil;
pub mod submap;
