pub mod action;
pub mod app;
pub mod base64;
pub mod config;
pub mod git_graph;
pub mod laws;
pub mod model;
pub mod names;
pub mod order;
pub mod paths;
pub mod repo_list;
pub mod scanner;
pub mod screen;
pub mod status;
pub mod text;
