pub mod error;
pub mod types;
pub mod leb;
pub mod decode;
pub mod module;
pub mod value;
pub mod store;
pub mod runtime;
