pub mod app;
pub mod asr;
pub mod audio;
pub mod cli;
pub mod clipboard;
pub mod config;
pub mod gui;
pub mod notifier;
pub mod state;
pub mod text;
