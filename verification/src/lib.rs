pub mod contract;
pub mod interface;
pub mod laws;
pub mod name_map;
pub mod names;
pub mod types;
