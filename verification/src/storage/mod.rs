pub mod secret_portal;
pub mod token_storage;

pub use token_storage::StorageError;
