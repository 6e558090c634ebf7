//! Logic of the terminal user interface: geometry, focus navigation, layout and text helpers.

pub mod elements;
pub mod log_block;
pub mod main_view;
pub mod menu_bar;
pub mod popups;
pub mod pretty_print;
pub mod styles;
pub mod text_wrapper;
pub mod types;
pub mod ui_element;
