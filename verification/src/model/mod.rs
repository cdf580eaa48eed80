pub mod ctx;
pub mod model;
