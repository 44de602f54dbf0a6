//! Decision core of a virtual machine orchestrator daemon.

pub mod api;
pub mod ch_client;
pub mod clock;
pub mod demo_vm;
pub mod edge_laws;
pub mod error;
pub mod host_metrics;
pub mod io_error;
pub mod json;
pub mod metrics_laws;
pub mod net_tap;
pub mod numbers;
pub mod operation_laws;
pub mod paths;
pub mod pool;
pub mod pool_laws;
pub mod proc_text;
pub mod process_pool;
pub mod request_laws;
pub mod service;
pub mod service_laws;
pub mod settings;
pub mod slot_supervisor;
pub mod text;
pub mod text_laws;
pub mod vm_metrics;
pub mod vm_payload;
pub mod vm_validation;
pub mod worker_laws;
