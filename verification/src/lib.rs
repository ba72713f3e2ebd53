//! Planning, launching and watching a local fleet of node processes.

pub mod channel;
pub mod dashboard;
pub mod launch;
pub mod lifecycle;
pub mod lifecycle_laws;
pub mod logs;
pub mod streamer;
pub mod tabs;
pub mod text;
pub mod topology;
pub mod topology_laws;
pub mod window;
