pub mod hashmap_two_fa_code_store;
pub mod hashset_banned_token_store;
pub mod redis_banned_token_store;
pub mod redis_two_fa_code_store;
