//! Discovery of display monitors, their DDC/CI power control, and the line
//! protocol through which a remote caller lists and switches them.

pub mod power;
pub mod text;
pub mod monitors;
pub mod discovery;
pub mod db;
pub mod server;
