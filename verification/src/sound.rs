pub mod static_sounds;
