//! Small programs on numbers, text, commands and pattern matching.

pub mod basics;
pub mod borrowing;
pub mod cli_advanced;
pub mod cli_commands;
pub mod description;
pub mod devices;
pub mod input_events;
pub mod inventory;
pub mod library;
pub mod lifetimes;
pub mod links;
pub mod machines;
pub mod matching;
pub mod messages;
pub mod number_file;
pub mod positive;
pub mod results;
pub mod sensors;
pub mod shapes;
pub mod stats;
pub mod validation;
pub mod wc_light;
