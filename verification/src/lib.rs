//! A verified core for a schema-less cluster resource client: resolving
//! free-form resource names against a discovery catalog, building
//! scope-correct accessors, dispatching verbs, and laying out dynamic
//! objects as an aligned textual table.

pub mod accessor;
pub mod age;
pub mod catalog;
pub mod dispatch;
pub mod object;
pub mod render;
pub mod text;
