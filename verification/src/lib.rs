//! Travel-flow epidemiological accounting.
//!
//! Each simulated hour, travellers leave their home region for destination
//! regions. This library classifies every traveller in an outgoing batch by
//! disease state, accumulates one count record per (hour, destination) batch
//! in an append-only ledger, and renders the ledger as tabular report rows
//! when the simulation ends.

pub mod counter;
pub mod disease;
pub mod report;
pub mod travel;
