//! Identifier types shared by the request contexts.

pub mod peripheral_id;
