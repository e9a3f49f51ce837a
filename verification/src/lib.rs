pub mod application;
pub mod commands;
pub mod diagnostics;
pub mod domain;
pub mod storage;
pub mod text;
