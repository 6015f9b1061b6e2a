//! Verified core of a domain-registrar dashboard: a durable job queue with
//! exclusive claims and bounded retries, a worker dispatch table, a cron
//! driver that enqueues recurring jobs, and the registrar-sync logic those
//! jobs run (flag translation, date parsing, idempotent upserts, DNS
//! classification).

pub mod cron;
pub mod domains;
pub mod jobs;
pub mod porkbun;
pub mod registry;
pub mod routes;
pub mod store;
pub mod strutil;
pub mod worker;
