//! Recognition of UI component patterns in document nodes: a fixed, ordered
//! catalogue of matcher/extractor pairs and the structured descriptions they
//! produce.

pub mod alert;
pub mod alert_generator;
pub mod checkbox;
pub mod checkbox_generator;
pub mod component_generator;
