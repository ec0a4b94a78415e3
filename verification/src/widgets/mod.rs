//! A collection of predefined widgets.

pub mod button;
pub mod text_view;

pub use button::PushButton;
pub use text_view::TextView;
