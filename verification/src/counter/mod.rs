//! The counter widget: the count record it exchanges over a topic, and what
//! it shows and sends.

pub mod decimal;
pub mod widget;
