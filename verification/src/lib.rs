pub mod secret;
pub mod text;
pub mod tenant;
pub mod scope;
pub mod url_path;
pub mod timing;
pub mod tokens;
pub mod models;
pub mod config;
pub mod client;
