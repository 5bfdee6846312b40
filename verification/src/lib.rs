//! Backend core for a desktop document reader: a verified session manager
//! for a stdio tool-provider protocol (session registry, connection
//! lifecycle, operation dispatch, content normalization), together with the
//! verifiable parts of the surrounding configuration, usage-statistics and
//! file-handling glue.

pub mod capabilities;
pub mod clock;
pub mod config;
pub mod content;
pub mod dispatch;
pub mod errors;
pub mod files;
pub mod ids;
pub mod import_export;
pub mod json;
pub mod model;
pub mod presets;
pub mod proxy;
pub mod registry;
pub mod storage;
pub mod system;
pub mod usage;
pub mod util;
