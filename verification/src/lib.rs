//! Checks that filenames conform to a configured naming convention
//! (kebab-case, snake_case, UPPER_SNAKE, camelCase or PascalCase),
//! optionally varying the expected convention per file extension.

pub mod checker;
pub mod config;
pub mod matcher;
mod text;
