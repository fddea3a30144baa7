//! The store and the register of users.

pub mod consistency;
pub mod data_service;
pub mod user_service;

pub use data_service::{AppData, DataService, SnapshotRead, StoreView};
pub use user_service::UserService;
