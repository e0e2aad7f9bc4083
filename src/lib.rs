pub mod arbitrary;
pub mod builder;
pub mod error;
pub mod placeholders;
