//! Jobs taken from the work queue.

pub mod image_cortex_process;
