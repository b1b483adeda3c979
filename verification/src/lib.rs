//! A small review-form library: three text fields captured from a GUI
//! shell, snapshotted on submit, and encoded for the two submission
//! channels (a named backend command and a single-frame socket round trip).

pub mod encode;
pub mod form;

pub use encode::debug_of;
pub use encode::display_line;
pub use encode::display_line_spec;
pub use encode::socket_frame;
pub use encode::socket_frame_spec;
pub use form::FormState;
pub use form::SubmissionPayload;
