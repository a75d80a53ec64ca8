//! Game logic of an interrogation-style murder mystery: the request bodies
//! and routes of the story server, the voice chosen for each suspect, the
//! settings and byte decoding of the intercom hardware, the menu states and
//! the movements of the suspects between the door and the chair.

pub mod api;
pub mod interrogation;
pub mod menu;
pub mod serial;
pub mod speech;
mod text;
