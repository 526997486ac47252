//! Front-end logic of the Aporture file-transfer clients: failure
//! classification, the saved-contact book, passphrase resolution,
//! transfer progress tracking and the decisions behind each screen.

pub mod app;
pub mod args;
pub mod commands;
pub mod confirmation;
pub mod contact_page;
pub mod contact_row;
pub mod contacts;
pub mod errors;
pub mod file_chooser;
pub mod holder;
pub mod passphrase;
pub mod peer;
pub mod preferences;
pub mod progress;
pub mod receive;
pub mod send;
pub mod toaster;
