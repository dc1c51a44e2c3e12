//! Deterministic generation of transaction plans for load testing a
//! transaction-processing network, and the decisions of the pipeline that
//! submits them.

pub mod dispatch;
pub mod generator;
pub mod keys;
pub mod text;
