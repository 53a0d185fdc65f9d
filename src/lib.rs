//! Execution core of a container-native CI control plane: manifest
//! normalisation, secret resolution, step command composition, workload
//! naming, the per-pipeline supervisor state machine, admission sequencing
//! and the recovery registry.

pub mod command;
pub mod naming;
pub mod pipeline;
pub mod secrets;
pub mod workload;
pub mod supervisor;
pub mod admission;
pub mod registry;
pub mod logs;
pub mod repos;
pub mod webhook;
pub mod config;
pub mod ordering;
