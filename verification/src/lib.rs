//! A live byte-stream relay: one producer's chunks fanned out to any number of
//! subscribers through a bounded window, with slow subscribers isolated by an
//! explicit lag policy.

pub mod chunk;
pub mod handler;
pub mod ingress;
pub mod laws;
pub mod lifecycle;
pub mod model;
pub mod relay;
