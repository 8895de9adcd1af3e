//! Generator for technical-indicator plugin scaffolding: a study described as
//! plain data is rendered into a header declaring the plugin's class, inputs
//! and output channels, and into a once-only implementation stub.
pub mod emit;
pub mod laws;
pub mod study;
pub mod text;
