//! # pypiserver
//!
//! The core of a Python package registry: a catalog of package records with
//! one record per name and version, an artifact store that saves bytes
//! through a scratch file and a rename, the registry's sequences that keep
//! the two coherent, and the projection of records into a PEP-503 simple
//! index.

pub mod catalog;
pub mod error;
pub mod fs;
pub mod index;
pub mod liquid_render;
pub mod model;
pub mod models;
pub mod package;
pub mod packages;
pub mod projector;
pub mod python_package;
pub mod registry;
pub mod repository;
pub mod simple_index;
pub mod sources;
pub mod sqlite;
pub mod text;
pub mod web;
