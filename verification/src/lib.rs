//! Core rules of the interactive desktop wallpaper: the task model, the
//! persisted settings and their validation, the database row codec, the
//! wallpaper host life cycle and the small text utilities they share.

pub mod text;

pub mod model;
pub mod settings;
pub mod store;
pub mod desktop_host;
pub mod desktop_integration;
pub mod monitors;
pub mod data_migration;
pub mod pomodoro_service;
pub mod commands;
