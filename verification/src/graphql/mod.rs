//! The types of the GraphQL interface and how they map to the models.

pub mod property_types;
pub mod user_types;
