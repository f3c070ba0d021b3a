pub mod display;
pub mod keyboard;
pub mod model;
pub mod sprite;
pub mod stack;
pub mod timers;
pub mod vm;
