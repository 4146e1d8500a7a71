//! The domain: configuration entities, value objects, errors and the
//! services that parse parameters, format schemas, match tools and resolve
//! environment references.

pub mod entities;
pub mod errors;
pub mod services;
pub mod value_objects;
