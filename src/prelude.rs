pub use crate::identifier::{StructuredData, StructuredDataError};
