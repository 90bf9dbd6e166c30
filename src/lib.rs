pub mod device;
pub mod error;
pub mod side_data;
