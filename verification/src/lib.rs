pub mod fulfillment;
pub mod serializable_error;
pub mod strutil;
pub mod traits;
pub mod decode;
pub mod dispatch;
pub mod encode;
pub mod wire;
