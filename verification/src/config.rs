use vstd::prelude::*;

verus! {

/// Settings of the service, read from the environment at start-up.
#[derive(Debug)]
pub struct AppConfig {
    pub app_port: u16,
    pub app_host: String,
    pub app_name: String,
    pub database_uri: String,
    pub database_min_connections: u32,
    pub database_max_connections: u32,
    pub redis_uri: String,
    pub password_salt: String,
    pub email_sender: String,
    pub email_sender_password: String,
    pub email_smtp_server: String,
    pub email_smtp_port: Option<u16>,
    pub root_dir: String,
}

} // verus!
