//! Host-information display: configuration, provider text formatting, result
//! collection and the composition of output lines beside a distro logo.

pub mod cfg;
pub mod out;
pub mod laws;
pub mod plugin;
pub mod info;
