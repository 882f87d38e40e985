//! Core logic of a desktop utility that follows the operating system's
//! light/dark theme with the local sunrise and sunset.

pub mod text;
pub mod calendar;
pub mod model;
pub mod solar;
pub mod worker;
pub mod geocode;
pub mod settings;
pub mod startup;
pub mod i18n;
pub mod tray;
pub mod window;
