//! Verified core of the Phantom desktop assistant.
pub mod text;
pub mod hallucination;
pub mod proctor;
pub mod state;
pub mod audio;
pub mod gemini;
pub mod commands;
pub mod recording;
pub mod watcher;
pub mod vad;
pub mod whisper;
pub mod env_report;
pub mod panels;
pub mod network;
pub mod display;
pub mod capture;
pub mod usage_db;
pub mod dodge;
