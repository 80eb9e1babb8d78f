//! Verified core of the LegalMinds workbench front end.
pub mod text;
pub mod shell;
pub mod view_model;
pub mod models;
pub mod api;
pub mod files;
pub mod search;
pub mod timeline;
pub mod header;
pub mod labels;
pub mod chat;
pub mod paths;
pub mod persons;
pub mod person_graph;
pub mod session;
pub mod canvas;
pub mod previews;
pub mod forms;
pub mod cases;
pub mod drag;
pub mod execution;
