pub mod execute;
pub mod request;
