//! Small functions on integers and strings that show how values are returned,
//! borrowed and moved, each with the contract that says what it hands back.

pub mod borrowing;
pub mod functions;
pub mod ownership;
