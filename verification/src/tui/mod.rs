pub mod keys;
pub mod i18n;
pub mod text_input;
pub mod help;
pub mod peer_permissions;
pub mod app;
pub mod serve;
pub mod doctor;
pub mod onboard;
pub mod peers;
pub mod pairing;
pub mod screens;
pub mod view;
