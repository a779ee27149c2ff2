//! Verified core of the avoid-zone route planning service: request and CSV
//! validation, routing-provider selection, and the Gaode response rules.
pub mod config;
pub mod coord;
pub mod csv_import;
pub mod db;
pub mod error;
pub mod routes;
pub mod routing;
pub mod text;
