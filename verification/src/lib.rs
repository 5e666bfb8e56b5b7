//! Coordinator for a many-core system visualiser: the shared state, the
//! commands that act on it, and the diagram export pipeline.

pub mod configuration;
pub mod configuration_file;
pub mod diagram;
pub mod edit;
pub mod error;
pub mod export;
pub mod info;
pub mod menu;
pub mod messages;
pub mod notify;
pub mod paths;
pub mod parse;
pub mod raster;
pub mod result_status;
pub mod state;
pub mod svg;
pub mod sync;
pub mod system;
