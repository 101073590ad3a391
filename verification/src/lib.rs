//! Decision logic of a small desktop companion: the OAuth loopback capture
//! (port selection, redirect page, sign-in ceremony), the overlay window
//! toggle and the fixed database schema.

pub mod constants;
pub mod listener;
pub mod pet_window;
pub mod ports;
pub mod redirect;
pub mod sign_in;
pub mod startup;
