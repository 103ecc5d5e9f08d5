//! The state of the desktop application's pages and widgets, and what each of
//! their controls does to it and to the settings. Drawing is left to the
//! application; these functions are what a click or an edit decides.
pub mod clients;

pub mod dlls;
pub mod community;
pub mod pages;
pub mod tabs;
pub mod pickers;
pub mod binary_viewer;
