//! Connections to the key-value store that keeps the watermarks durable.

use vstd::prelude::*;

use crate::config::Config;

verus! {

#[verifier::external_type_specification]
#[verifier::external_body]
pub struct ExRedisClient(redis::Client);

#[verifier::external_type_specification]
#[verifier::external_body]
pub struct ExRedisError(redis::RedisError);

/// Whether redis accepts `url` as the connection address of a server.
pub uninterp spec fn redis_url_accepted(url: Seq<char>) -> bool;

/// Relies on redis's `Client::open`, which only reads the connection
/// information out of the URL (no connection is made), failing where the URL
/// does not parse as a redis address.
#[verifier::external_body]
fn open_client(url: &str) -> (r: Result<redis::Client, redis::RedisError>)
    ensures
        r is Ok <==> redis_url_accepted(url@),
{
    redis::Client::open(url)
}

/// A handle on one redis server.
pub struct RedisClient {
    client: redis::Client,
}

impl RedisClient {
    /// A client for the server at `url`; fails where the URL is not a redis
    /// address.
    pub fn connect(url: &str) -> (r: Result<RedisClient, redis::RedisError>)
        ensures
            r is Ok <==> redis_url_accepted(url@),
    {
        match open_client(url) {
            Ok(client) => Ok(RedisClient { client }),
            Err(e) => Err(e),
        }
    }

    /// The underlying client, through which values are read and written.
    pub fn client(&self) -> &redis::Client {
        &self.client
    }
}

/// The watermark store of the bot, kept in redis.
pub struct RedisRepository {
    redis: RedisClient,
}

impl RedisRepository {
    /// Connects to the redis server that `config` names; fails where its
    /// address is not a redis URL.
    pub fn connect(config: &Config) -> (r: Result<RedisRepository, redis::RedisError>)
        ensures
            r is Ok <==> redis_url_accepted(config.redis_url@),
    {
        match RedisClient::connect(config.redis_url.as_str()) {
            Ok(redis) => Ok(RedisRepository { redis }),
            Err(e) => Err(e),
        }
    }

    /// The client of the server holding the watermarks.
    pub fn redis(&self) -> &RedisClient {
        &self.redis
    }
}

} // verus!
