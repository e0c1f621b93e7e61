//! Analytical core of a network traffic monitor.
//!
//! The library decodes raw link-layer frames into a canonical description of
//! their addressing and protocol identity (`PacketInfos`), and aggregates
//! those records into a deduplicated traffic summary (`SonarState`). Helpers
//! format records for display, build a node/edge graph of the traffic, and
//! flatten entries into rows for tabular export. Frame capture, file output
//! and the user interface are outside collaborators and live around the
//! library, not in it.

pub mod cli;
pub mod export;
pub mod graph;
pub mod laws;
pub mod layer_2_infos;
pub mod layer_3_infos;
pub mod layer_4_infos;
pub mod layer_7_infos;
pub mod sniff;
pub mod state;
pub mod text;
pub mod wire;
