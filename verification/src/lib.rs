//! Storage rules of the UCR local store: how records are encoded into and
//! decoded from their SQLite columns, how schema versions are recognised and
//! migrated, and the state machines that decide every durable write.
//!
//! The functions here compute from plain values; the connection handling and
//! SQL statements live with the caller.

pub mod error;
pub mod text;
pub mod codec;
pub mod scope;
pub mod principal;
pub mod sqlite_error;
pub mod schema;
pub mod conversation;
pub mod delivery;
pub mod device;
pub mod bridge;
pub mod call;
pub mod group;
pub mod subscription;
pub mod federation;
pub mod conference;
pub mod identity;
pub mod record;
pub mod anti_entropy;
pub mod command;
pub mod journal;
pub mod intent;
pub mod group_mls;
pub mod group_record;
