//! Discrete core of a sampling-based motion planner whose edges are
//! curvature-bounded curves: the append-only search tree, exact nearest-node
//! selection, the bounded search state machine, the joining of edge curves
//! into one path, and the workspace's well-formedness check.
//!
//! The library is generic over the pose and point types, so the continuous
//! geometry (curve solving, footprint sweeping, random sampling) is done by
//! the caller and handed in as plain results.
pub mod config;
pub mod path;
pub mod planner;
pub mod tree;
