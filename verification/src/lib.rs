//! Verified core of an ABP code generator: naming rules, text fragments for
//! generated layers, and idempotent merges into existing source files.
pub mod angular;
pub mod angular_app;
pub mod angular_styles;
pub mod command;
pub mod configure;
pub mod csharp;
pub mod domain;
pub mod entity_files;
pub mod fragments;
pub mod generate_entity;
pub mod generation;
pub mod localization;
pub mod mapping;
pub mod merge;
pub mod mobile;
pub mod models;
pub mod naming;
pub mod pattern;
pub mod ports;
pub mod project_meta;
pub mod projects;
pub mod resource_mapping;
pub mod sort;
pub mod staging;
pub mod templates;
pub mod text;
pub mod theme;
pub mod toolchain;
pub mod tui;
pub mod ui_files;
pub mod vue;
