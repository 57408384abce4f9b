//! Round-based partial-key generation, synchronisation and aggregation for a
//! cluster of key generators.

pub mod address;
pub mod address_map;
pub mod cluster;
pub mod config;
pub mod config_option;
pub mod key;
pub mod key_generator;
pub mod partial_key_list;
pub mod store;
pub mod task;
