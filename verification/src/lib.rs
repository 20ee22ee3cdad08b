//! The component catalog and wire records of a GPUI shell driven by a managed
//! host: argument validation for every registered constructor and method, the
//! ordered component registry, and the configuration each component derives
//! from its recorded method calls.

pub mod abi;
pub mod text;
pub mod number;
pub mod rules;
pub mod registry;
pub mod calls;
pub mod children;
pub mod components;
pub mod paint_path;
