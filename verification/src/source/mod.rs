pub mod creesp_manager;
pub mod memory_manager;
pub mod source_manager;
