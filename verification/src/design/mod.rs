//! Design specifications: the motor that drives a conveyor and the layout
//! of the parts that make one up.

pub mod layout;
pub mod motor;
