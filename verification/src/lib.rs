//! Tuition calculation for a university enrolment form.
//!
//! The crate turns the optional text fields of a submitted form into a typed
//! request ([`form`], with the text rules in [`text`]), computes the amount
//! due in exact decimal arithmetic ([`money`], [`tuition`]), decides step by
//! step what a request handler asks of the record store and how the request
//! ends ([`handler`]), says what those decisions mean for the stored records
//! ([`store`]), and lays out the pages that are sent back ([`pages`]).
//!
//! Nothing here reads a socket or a database: the caller does, and hands the
//! library plain values.

pub mod text;
pub mod form;
pub mod money;
pub mod tuition;
pub mod handler;
pub mod store;
pub mod pages;
