pub mod install;
pub mod install_order;
pub mod update;
pub mod update_order;
