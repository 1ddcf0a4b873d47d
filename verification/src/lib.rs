//! Payment logic of a Core Lightning plugin that routes with the Lightning Development Kit.

pub mod text;
pub mod scid;
pub mod route;
pub mod json;
pub mod keys;
pub mod payments;
pub mod params;
pub mod invoice;
pub mod send;
pub mod commands;
pub mod sync;
pub mod network_probe;
pub mod peers;
pub mod config;
pub mod logger;
