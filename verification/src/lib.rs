pub mod app;
pub mod clock;
pub mod enums;
pub mod envelope;
pub mod models;
pub mod sorting;
pub mod tables;
pub mod tabs;
pub mod text;
pub mod tree;
pub mod types;
