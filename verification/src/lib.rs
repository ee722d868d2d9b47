//! A minimal contract that stores a single boolean cell.
//!
//! `state` holds the cell and its four operations; `dispatch` is the wire
//! layer that routes a raw invocation input to a constructor or message and
//! encodes the reply; `laws` proves the behavioral guarantees of the
//! contract as a whole.

pub mod dispatch;
pub mod laws;
pub mod state;
