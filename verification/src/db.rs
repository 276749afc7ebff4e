pub mod mongol;
pub mod mongoldb;
