//! Per-process memory accounting: parsing of the kernel's per-mapping
//! accounting records, summation into one summary per process, kernel-thread
//! filtering, and cached owner-name resolution.

pub mod label;
pub mod owner;
pub mod parse;
pub mod procinfo;
pub mod summary;

pub use owner::OwnerCache;
pub use parse::get_kb;
pub use parse::parse_pid;
pub use procinfo::cmdline_display;
pub use procinfo::is_kernel;
pub use procinfo::truncated;
pub use summary::summarize;
pub use summary::MemorySummary;
