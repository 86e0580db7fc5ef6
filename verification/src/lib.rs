//! Edit session of one inventory article: the editable copy of its fields,
//! the log of barcode additions and removals, and the reconciliation of a
//! submitted update with the error slot.

pub mod barcode;
pub mod failure;
pub mod laws;
pub mod model;
pub mod session;
pub mod text;
