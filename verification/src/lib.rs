pub mod application;
pub mod domain;
pub mod infrastructure;
pub mod json;
pub mod presentation;
pub mod strmap;
pub mod text;
