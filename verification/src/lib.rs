pub mod console;
pub mod file_line;
pub mod laws;
pub mod level;
pub mod template;
pub mod verbose;

mod clock;
mod paint;

pub use console::ConsoleLogger;
pub use file_line::render_file_line;
pub use level::ColoredLine;
pub use level::LevelTag;
pub use level::LogColor;
pub use verbose::VerboseLogger;
