//! Double opt-in mailing list: validated subscriber values, the registration and
//! confirmation flows, credential checks and newsletter fan-out.

pub mod subscriber_email;
pub mod subscriber_name;
pub mod text;
pub mod token;
pub mod new_subscriber;
pub mod errors;
pub mod email;
pub mod subscriptions;
pub mod store;
pub mod subscriptions_confirm;
pub mod authentication;
pub mod newsletters;
pub mod login;
pub mod configuration;
