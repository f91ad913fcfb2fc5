//! The decisions of a background recorder that keeps the last moments of a desktop session
//! in a ring buffer and writes them out as a clip.

pub mod audio;
pub mod bytes;
pub mod capture;
pub mod chance;
pub mod clock;
pub mod controller;
pub mod daemon;
pub mod desktop;
pub mod discord;
pub mod discovery;
pub mod doctor;
pub mod error;
pub mod manager;
pub mod notifications;
pub mod paths;
pub mod pipeline;
pub mod pipewire;
pub mod remux;
pub mod ring;
pub mod save;
pub mod screencast;
pub mod search;
pub mod settings;
pub mod steam;
pub mod text;
pub mod tray;
pub mod video;
pub mod watcher;
pub mod window;
