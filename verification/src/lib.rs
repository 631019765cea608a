//! Core of a small optics-retail workflow: a settings store with
//! default-backfill semantics, an order store over an embedded SQLite
//! table, and an export engine that renders pending orders grouped by
//! product into a plain-text fulfilment sheet.

pub mod export;
pub mod grouping;
pub mod numfmt;
pub mod order;
pub mod paths;
pub mod settings;
pub mod store;
pub mod text;
