pub mod audio;
pub mod dataset;
pub mod digits;
pub mod engine;
pub mod error;
pub mod files;
pub mod listen;
pub mod naming;
pub mod recognise;
pub mod roster;
pub mod store;
pub mod strutil;
pub mod trace;
