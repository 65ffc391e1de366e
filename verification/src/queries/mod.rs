//! The read-only views of the contract's state.
pub mod get_config;
pub mod get_user_config;
pub mod get_user_dca_orders;

pub use get_config::get_config;
pub use get_user_config::get_user_config;
pub use get_user_dca_orders::get_user_dca_orders;
