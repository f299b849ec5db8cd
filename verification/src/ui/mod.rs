pub mod console;
pub mod debug;
