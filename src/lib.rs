pub mod decimal;
pub mod identifier;
pub mod laws;
pub mod prelude;

pub use identifier::{StructuredData, StructuredDataError};
