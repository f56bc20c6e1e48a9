//! Lifecycle rules for named, owned, time-bounded storage workspaces.
//!
//! A workspace is a storage volume that belongs to a user and expires. This
//! library holds the rules of its life, as values and functions without any
//! input or output of their own:
//!
//! - [`store`] is the record of the workspaces and of the notifications
//!   sent to their owners;
//! - [`create`], [`extend`], [`expire`] and [`rename`] are the operations on
//!   one workspace, each of which changes the store and tells what has to
//!   be done outside it;
//! - [`history`] states what holds of the store after any sequence of
//!   these changes;
//! - [`schedule`] decides when an owner has to be reminded;
//! - [`maintain`] is the sweep over all workspaces that reminds owners,
//!   removes what is past its retention window and asks for snapshots;
//! - [`db_schema`] plans the upgrade of a stored schema;
//! - [`policy`] and [`config`] hold what is configured, [`mail`] and
//!   [`relay`] what is said by mail and how the relay is reached, [`zfs`]
//!   and [`volume`] how volumes are named and managed, [`list`] and
//!   [`filesystems`] what the tables show.
//!
//! Instants and spans are whole seconds in an `i64`; see [`time`].

pub mod action;
pub mod config;
pub mod create;
pub mod db_schema;
pub mod expire;
pub mod extend;
pub mod filesystems;
pub mod history;
pub mod list;
pub mod mail;
pub mod maintain;
pub mod policy;
pub mod relay;
pub mod rename;
pub mod schedule;
pub mod store;
pub mod text;
pub mod time;
pub mod volume;
pub mod zfs;
