//! Host telemetry snapshots: battery, CPU, memory and process summaries,
//! derived from a shared handle to the operating system's live state.

pub mod battery;
pub mod cpu;
pub mod host;
pub mod memory;
pub mod process;

pub use battery::get_battery_brief_info;
pub use cpu::assemble_cpu_summary;
pub use cpu::get_cpu_brief_info;
pub use cpu::read_cpu_brief_info;
pub use cpu::CpuRecord;
pub use host::refresh_cpu;
pub use host::refresh_memory;
pub use host::refresh_processes;
pub use host::HostState;
pub use memory::get_memory_brief_info;
pub use process::get_processes_brief_info;
