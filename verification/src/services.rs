pub mod data_stores;
pub mod hashmap_user_store;
pub mod mock_email_client;
