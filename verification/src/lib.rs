//! A structured-logging backend that turns log records into self-describing
//! trace events for kernel tracing.
//!
//! The crate decides which fields an event holds, in which order and with
//! which type and format tags; the bytes are laid down by the builders of
//! `eventheader_dynamic` and `tracelogging_dynamic`. Providers are created
//! once per name and kept for the life of the logger. The logger itself
//! speaks to Linux; for Windows the crate lays out and writes the events of
//! a provider that its caller registers.
//!
//! # How a record becomes an event
//!
//! - [`logger`] holds the configuration and the logger. A log call names a
//!   target; the logger finds or creates the provider that the target
//!   stands for and hands it the record.
//! - [`registry`] keeps the providers, at most one per name;
//!   [`etw_registry`] does so for Windows providers and tells their owner
//!   when to register one.
//! - [`provider`] asks whether anyone listens for the record's level and
//!   keyword. Where nobody does, nothing is encoded.
//! - [`native`] lays out the native event, [`common_schema`] the Common
//!   Schema envelope, which is written in addition to the native event
//!   where the configuration asks for it. Both give an [`field::Event`]: plain values that can
//!   be looked at before anything is written. Both know the layouts of
//!   Windows and of Linux.
//! - [`sink`] writes an event into the builder of the Linux backend and
//!   [`etw`] into the builder of the Windows backend; [`fits`] says which
//!   records they can always write, and [`written`] what the builder holds
//!   after records of a kind.
//!
//! # What was decided where the backends leave a choice
//!
//! - A provider whose name the backend cannot take is not created, and its
//!   target is disabled. A registration that the kernel refuses leaves the
//!   provider in place with event sets that are never enabled. Neither is an
//!   error for the caller.
//! - A provider registers one event set per native level for the default
//!   keyword when it is created. No log call registers another: a level and
//!   keyword without an event set are disabled.
//! - A key-value whose value could not be read is dropped, and so is one
//!   whose key holds a NUL, which no field name can hold. The rest of the
//!   event ships.
//! - An event that the sink cannot write, for a NUL in its name or a text
//!   of more than 65535 bytes, is dropped as a whole before anything is
//!   written.
//! - Settings with a fault are never made into a logger: the functions that
//!   make one leave them out, and `config_fault` tells what the fault is.
//! - A character is narrowed to the low byte of its code point, which loses
//!   the upper bits of a character outside Latin-1.

pub mod common_schema;
pub mod etw;
pub mod etw_registry;
pub mod event;
pub mod field;
pub mod fits;
pub mod level;
pub mod logger;
pub mod native;
pub mod provider;
pub mod record;
pub mod registry;
pub mod sink;
pub mod time;
pub mod trace;
pub mod value;
pub mod written;
