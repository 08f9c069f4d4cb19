pub mod hello;
pub mod screen;
pub mod toolkit;

pub use hello::HelloWorld;
pub use screen::{Label, Stack};
