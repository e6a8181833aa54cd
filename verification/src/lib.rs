pub mod text;
pub mod order;
pub mod num;
pub mod error;
pub mod path;
pub mod config;
pub mod setup;
pub mod doctor;
pub mod games;
pub mod logger;
pub mod uri;
pub mod launcher;
pub mod auth;
pub mod plugin;
pub mod crypto;
pub mod updater;
