//! Media ingestion core: format detection, variant generation, storage keys,
//! avatar resolution and scratch-file retention, with machine-checked contracts.

pub mod common;
pub mod container;
pub mod entities;
pub mod gateways;
pub mod settings;
pub mod usecases;
