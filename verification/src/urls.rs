//! Connection-URL builders.  Endpoints come in as an explicit
//! configuration the application assembles once at startup; no function
//! here reads ambient environment state.

use vstd::prelude::*;
use vstd::string::StringExecFns;

verus! {

/// Where the relational store lives.
#[derive(Clone, Debug)]
pub struct DbConfig {
    pub host: String,
    pub port: String,
    pub user: String,
    pub pass: String,
    pub name: String,
}

/// Where the message broker lives.
#[derive(Clone, Debug)]
pub struct QueueConfig {
    pub host: String,
    pub port: String,
    pub user: String,
    pub pass: String,
}

/// Where the object store lives.
#[derive(Clone, Debug)]
pub struct StoreConfig {
    pub endpoint: String,
    pub port: String,
}

/// The relational store's connection URL.
pub fn get_db_url(cfg: &DbConfig) -> (r: String)
    ensures
        r@ == "postgres://"@ + cfg.user@ + ":"@ + cfg.pass@ + "@"@ + cfg.host@ + ":"@ + cfg.port@
            + "/"@ + cfg.name@,
{
    let mut s = "postgres://".to_owned();
    s.append(cfg.user.as_str());
    s.append(":");
    s.append(cfg.pass.as_str());
    s.append("@");
    s.append(cfg.host.as_str());
    s.append(":");
    s.append(cfg.port.as_str());
    s.append("/");
    s.append(cfg.name.as_str());
    s
}

/// The message broker's connection URL.
pub fn get_rabbitmq_url(cfg: &QueueConfig) -> (r: String)
    ensures
        r@ == "amqp://"@ + cfg.user@ + ":"@ + cfg.pass@ + "@"@ + cfg.host@ + ":"@ + cfg.port@,
{
    let mut s = "amqp://".to_owned();
    s.append(cfg.user.as_str());
    s.append(":");
    s.append(cfg.pass.as_str());
    s.append("@");
    s.append(cfg.host.as_str());
    s.append(":");
    s.append(cfg.port.as_str());
    s
}

/// The object store's endpoint URL.
pub fn get_minio_endpoint_url(cfg: &StoreConfig) -> (r: String)
    ensures
        r@ == "http://"@ + cfg.endpoint@ + ":"@ + cfg.port@,
{
    let mut s = "http://".to_owned();
    s.append(cfg.endpoint.as_str());
    s.append(":");
    s.append(cfg.port.as_str());
    s
}

} // verus!
