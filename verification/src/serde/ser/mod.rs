pub mod error;
pub mod indexed;
pub mod request;
