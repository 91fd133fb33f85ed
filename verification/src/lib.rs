//! Verified core of the Stardive API platform.

pub mod auth;
pub mod command;
pub mod client;
pub mod config;
pub mod error;
pub mod file_index;
pub mod files;
pub mod ids;
pub mod lostandfound;
pub mod modules;
pub mod notifications;
pub mod obscura;
pub mod orbit;
pub mod outside;
pub mod paths;
pub mod render;
pub mod search;
pub mod seqs;
pub mod sorting;
pub mod static_assets;
pub mod text;
pub mod tools;
pub mod upload;
