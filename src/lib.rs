pub mod users;
pub mod sessions;
pub mod authentication;
pub mod login;
pub mod password;
pub mod subscriptions;
pub mod newsletter;
pub mod render;
pub mod startup;
pub mod laws;
