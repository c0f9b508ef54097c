//! The bot's configuration and the commands it answers.

use vstd::prelude::*;

verus! {

/// Application configuration.
#[derive(Debug)]
pub struct Config {
    pub database_url: String,
    pub email_address: String,
    pub email_password: String,
    pub imap_server: String,
    pub imap_port: u16,
    pub redis_url: String,
    pub rsshub_url: String,
    pub teloxide_token: String,
}

/// The commands a chat can send.
#[derive(Clone, Copy, Debug, PartialEq, Eq, Structural)]
pub enum Command {
    CiaoIrina,
    SiAlConsumismo,
    BuongiornoIrina,
    VideoMinimalista,
    SerataSenzaTv,
    Start,
    Help,
}

} // verus!
