//! Process configuration: the addresses and credentials the process runs
//! with, and the connection URLs assembled from them.

use vstd::prelude::*;

use crate::text::{decimal_rep, u16_to_decimal};

verus! {

/// The connection URL of the backing database, assembled from its parts.
pub open spec fn spec_db_url(
    user: Seq<char>,
    password: Seq<char>,
    host: Seq<char>,
    port: u16,
    name: Seq<char>,
) -> Seq<char> {
    "postgres://"@ + user + ":"@ + password + "@"@ + host + ":"@ + decimal_rep(port as nat) + "/"@
        + name
}

/// The connection URL of the queue's backing store.
pub open spec fn spec_redis_url(host: Seq<char>, port: u16) -> Seq<char> {
    "redis://"@ + host + ":"@ + decimal_rep(port as nat)
}

/// Everything the process needs to know at start-up.  The two URL fields
/// are always the ones derived from the other fields.
#[derive(Clone, Debug)]
pub struct Config {
    pub server_address: String,
    pub server_port: u16,
    pub db_host: String,
    pub db_port: u16,
    pub db_user: String,
    pub db_password: String,
    pub db_name: String,
    pub db_url: String,
    pub redis_host: String,
    pub redis_port: u16,
    pub redis_url: String,
}

/// Assembles the database connection URL from its parts.
pub fn build_db_url(user: &str, password: &str, host: &str, port: u16, name: &str) -> (r: String)
    ensures
        r@ == spec_db_url(user@, password@, host@, port, name@),
{
    let mut url = "postgres://".to_owned();
    url.append(user);
    url.append(":");
    url.append(password);
    url.append("@");
    url.append(host);
    url.append(":");
    let port_text = u16_to_decimal(port);
    url.append(port_text.as_str());
    url.append("/");
    url.append(name);
    proof {
        assert(url@ =~= spec_db_url(user@, password@, host@, port, name@));
    }
    url
}

/// Assembles the queue store connection URL from its parts.
pub fn build_redis_url(host: &str, port: u16) -> (r: String)
    ensures
        r@ == spec_redis_url(host@, port),
{
    let mut url = "redis://".to_owned();
    url.append(host);
    url.append(":");
    let port_text = u16_to_decimal(port);
    url.append(port_text.as_str());
    proof {
        assert(url@ =~= spec_redis_url(host@, port));
    }
    url
}

impl Config {
    /// A configuration from explicit parts; the URLs are derived, never
    /// taken on faith.
    pub fn from_parts(
        server_address: String,
        server_port: u16,
        db_host: String,
        db_port: u16,
        db_user: String,
        db_password: String,
        db_name: String,
        redis_host: String,
        redis_port: u16,
    ) -> (r: Config)
        ensures
            r.server_address == server_address,
            r.server_port == server_port,
            r.db_host == db_host,
            r.db_port == db_port,
            r.db_user == db_user,
            r.db_password == db_password,
            r.db_name == db_name,
            r.redis_host == redis_host,
            r.redis_port == redis_port,
            r.db_url@ == spec_db_url(db_user@, db_password@, db_host@, db_port, db_name@),
            r.redis_url@ == spec_redis_url(redis_host@, redis_port),
    {
        let db_url = build_db_url(
            db_user.as_str(),
            db_password.as_str(),
            db_host.as_str(),
            db_port,
            db_name.as_str(),
        );
        let redis_url = build_redis_url(redis_host.as_str(), redis_port);
        Config {
            server_address,
            server_port,
            db_host,
            db_port,
            db_user,
            db_password,
            db_name,
            db_url,
            redis_host,
            redis_port,
            redis_url,
        }
    }

    /// The built-in development defaults.
    pub fn new() -> (r: Config)
        ensures
            r.server_address@ == "0.0.0.0"@,
            r.server_port == 8080,
            r.db_host@ == "localhost"@,
            r.db_port == 5432,
            r.db_user@ == "user"@,
            r.db_password@ == "password"@,
            r.db_name@ == "seraph"@,
            r.redis_host@ == "localhost"@,
            r.redis_port == 6379,
            r.db_url@ == spec_db_url("user"@, "password"@, "localhost"@, 5432, "seraph"@),
            r.redis_url@ == spec_redis_url("localhost"@, 6379),
    {
        Config::from_parts(
            "0.0.0.0".to_owned(),
            8080,
            "localhost".to_owned(),
            5432,
            "user".to_owned(),
            "password".to_owned(),
            "seraph".to_owned(),
            "localhost".to_owned(),
            6379,
        )
    }
}

} // verus!
