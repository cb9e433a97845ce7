pub mod bindings;
pub mod engine;
pub mod guest;
pub mod host;
pub mod runtime;
pub mod service_bus;
pub mod table;
pub mod worker;
