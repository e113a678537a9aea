//! The data structures of the bar, leaf first.

pub mod args_bar;
pub mod encoding;
pub mod focus;
pub mod input_parameter;
pub mod input_value;
pub mod keystrokes;

pub use args_bar::{ArgsBar, ArgsBarView};
pub use encoding::Encoding;
pub use input_parameter::{InputParameter, InputParameterView};
pub use input_value::{InputValue, InputValueView};
