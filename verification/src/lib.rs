//! Core logic of a desktop widget that shows how full the session and weekly
//! rate-limit windows of an Anthropic subscription are: reading the
//! rate-limit response headers, extrapolating when a window fills up, the
//! widget settings, and the decisions the widget shell takes between its
//! outside calls.
pub mod auth;
pub mod cache;
pub mod clock;
pub mod float_bits;
pub mod estimate;
pub mod status;
pub mod usage;
