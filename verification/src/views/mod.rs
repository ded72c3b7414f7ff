//! The decisions behind the pages: the public overview and the admin forms.

pub mod public;
pub mod admin;
