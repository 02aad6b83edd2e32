//! Newsletter subscriber lifecycle: validated identities, confirmation
//! tokens, the provider request for the confirmation email, and the
//! subscribe / confirm workflows over a subscriber registry.
pub mod configuration;
pub mod domain;
pub mod email_client;
pub mod json;
pub mod registry;
pub mod token;
pub mod workflow;
