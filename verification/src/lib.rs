pub mod text;
pub mod music;
pub mod inference;
pub mod backing;
pub mod tuner;
pub mod audio;
pub mod laws;
pub mod app;
pub mod input;
pub mod display;
