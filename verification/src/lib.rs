//! Verified core of an HTTP service-health monitor.
//!
//! The library holds the logic worth checking: the polling supervisor that
//! owns one periodic check loop per monitored service, the probe
//! classification rules, the label-keyed metrics sink the loops write into,
//! the text exposition of that sink, and the small decision procedures behind
//! the session and service-management endpoints.  All I/O (HTTP serving, the
//! network probes themselves, the relational store) lives outside the
//! library and hands plain values in and out.

pub mod auth;
pub mod collector;
pub mod config;
pub mod metrics;
pub mod models;
