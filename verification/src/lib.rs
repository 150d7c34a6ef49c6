//! Property panel of a terrain brush.
//!
//! A brush has a shape (circle or rectangle), an effect (change the height
//! map, or paint a mask layer) and a center. The panel edits shape and effect
//! through five widgets: a dropdown list for each of the two, and numeric
//! fields for width, length and radius.
//!
//! The panel does not own a user interface. It is handed the identities of
//! its widgets once they are built ([`layout`] says what to build), it is
//! fed the interface's messages one by one
//! ([`section::BrushSection::handle_message`]), and it says which messages
//! bring the widgets in step with the brush
//! ([`section::BrushSection::sync_to_model`]). What each of these does is
//! stated over [`section::Widgets::handled`] and
//! [`section::Widgets::sync_messages`]; [`laws`] holds what follows for whole
//! runs of messages.
//!
//! Numbers pass through the panel as bit patterns ([`scalar::Scalar`]).

pub mod brush;
pub mod laws;
pub mod layout;
pub mod message;
pub mod scalar;
pub mod section;
