//! Risk-as-a-Service: the verified core of a position-sizing service.
//!
//! `boundary` decodes a request's byte payloads into portfolio and order
//! words, `risk` holds the error taxonomy, the approval decision and what a
//! response reports, and `service` the service itself with the laws that tie
//! a request to its answer.

use vstd::prelude::*;

pub mod boundary;
pub mod risk;
pub mod service;
