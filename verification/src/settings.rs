//! Settings of the service.

use vstd::prelude::*;

verus! {

/// Where the service listens.
#[derive(Debug, PartialEq)]
pub struct ServerSettings {
    pub port: u16,
    pub cors_origins: Vec<String>,
    pub base_dir: Option<String>,
    pub app_url: String,
}

/// Where the storage is.
#[derive(Debug, PartialEq)]
pub struct DatabaseSettings {
    pub username: String,
    pub password: String,
    pub port: u16,
    pub host: String,
    pub database_name: String,
    pub init_sql: Option<String>,
}

/// How mail is sent.
#[derive(Debug, PartialEq)]
pub struct MailSettings {
    pub port: u16,
    pub host: String,
    pub starttls: bool,
    pub username: String,
    pub password: String,
    pub from: String,
}

/// The token of the Telegram bot, if there is a bot.
#[derive(Debug, PartialEq)]
pub struct TelegramSettings {
    pub token: Option<String>,
}

/// Where the datasource is: the database that the queries of the
/// notifications run against.
#[derive(Debug, PartialEq)]
pub struct PostgresSettings {
    pub username: String,
    pub password: String,
    pub port: u16,
    pub host: String,
    pub database_name: String,
}

/// All settings of the service.
#[derive(Debug, PartialEq)]
pub struct Settings {
    pub server: ServerSettings,
    pub database: DatabaseSettings,
    pub mail: MailSettings,
    pub telegram: TelegramSettings,
    pub datasource: PostgresSettings,
}

} // verus!
