//! Live cost tracking for meetings: the attendee roster, the cost model, the
//! big-digit glyph renderer, screen layout, text lines and the key dispatcher
//! of the terminal dashboard.
pub mod attendees;
pub mod cost;
pub mod glyph;
pub mod input;
pub mod layout;
pub mod meeting;
pub mod role;
pub mod screen;
pub mod startup;
pub mod text;
