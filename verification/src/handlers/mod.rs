//! The order-lifecycle and keeper-facing operations.
pub mod add_bot_tip;
pub mod cancel_dca_order;
pub mod create_dca_order;
pub mod modify_dca_order;
pub mod perform_dca_purchase;
pub mod update_config;
pub mod update_user_config;
pub mod withdraw;

pub use add_bot_tip::add_bot_tip;
pub use cancel_dca_order::cancel_dca_order;
pub use create_dca_order::{create_dca_order, CreateDcaOrder};
pub use modify_dca_order::{modify_dca_order, ModifyDcaOrderParameters};
pub use perform_dca_purchase::perform_dca_purchase;
pub use update_config::update_config;
pub use update_user_config::{serde_option, update_user_config};
pub use withdraw::withdraw;
