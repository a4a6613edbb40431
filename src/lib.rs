//! Live state and scoring of the dashboard's benchmarks (CPU, disk, network), and the
//! navigation and text of its pages.
//!
//! Each benchmark kind has a `TestCoordinator`: the snapshot that the UI reads, the
//! flag that asks for a redraw and the guard that lets only one worker run. Workers
//! report each phase to it; after the last phase it appends the weighted composite
//! score computed by `scoring::aggregate`. The laws that these calls obey are proved
//! in `laws`.

pub mod content;
pub mod coordinator;
pub mod events;
pub mod k3s;
pub mod k8s;
pub mod laws;
pub mod menu;
pub mod network_test;
pub mod port_manager;
pub mod report;
pub mod scan;
pub mod scoring;
pub mod sing_box;
pub mod system_info;
pub mod tcp_optimizer;
pub mod text;
pub mod types;
pub mod ui_state;
pub mod xray;
