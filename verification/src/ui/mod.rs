pub mod debug_console;
pub mod lyrics_app;
pub mod prompt_window;
pub mod welcome_window;
pub mod windows;
