//! Core of an in-memory tally service: range-validated zone and team
//! identifiers with a canonical text form, a tally map populated from a
//! default roster, and a store whose full reset may be guarded by a lock
//! token fixed at creation.

pub mod errors;
pub mod id_text;
pub mod latest_grue_data;
pub mod laws;
pub mod loading_zone;
pub mod requests;
pub mod tally_store;
pub mod team_id;
