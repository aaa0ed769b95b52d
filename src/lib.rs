//! The type-erasure and marshalling core of a Basic Model Interface (BMI)
//! adapter: numeric kinds and typed value arrays, the default operations of
//! the capability interface, the encoding of values across the C boundary,
//! and the lifecycle of a model handle.
pub mod bmi;
pub mod errors;
pub mod handle;
pub mod marshal;

pub use bmi::{GridType, Location, RefValues, ValueType, Values, VarType};
pub use errors::BmiError;
