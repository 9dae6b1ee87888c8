pub mod agent;
pub mod config;
pub mod format;
pub mod harvest;
pub mod model;
pub mod normalize;
pub mod parser;
pub mod storage;
pub mod text;
pub mod time;
pub mod utils;
pub mod xml;
