pub mod error;
pub mod indexed;
