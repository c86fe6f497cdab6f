//! State transitions of a crowdfunding campaign record: creation, donation
//! and withdrawal, each checked against the record's ownership and balance
//! rules.

pub mod campaign;
pub mod identity;
pub mod laws;
pub mod text;
