//! The logic of the plugin panel of an editor: which status each listed
//! plugin has, what a click on a row does, which menu a plugin gets, how many
//! rows are laid out, and how a description too long for its row is cut.
pub mod status;
pub mod catalog;
pub mod panel;
pub mod description;
pub mod laws;
