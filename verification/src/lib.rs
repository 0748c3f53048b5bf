pub mod config;
pub mod context;
pub mod daemon;
pub mod laws;
pub mod lifecycle;
pub mod model;
pub mod name_table;
pub mod protocol;
pub mod request;
pub mod signals;
pub mod startup;
