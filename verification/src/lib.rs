//! Orchestration core of an identity-verification gateway.
//!
//! The gateway sits in front of three backends: an AI-processing service
//! reached over RPC, a session-of-record service reached over REST and a
//! blob-storage service reached over REST. Everything in this crate is pure:
//! each operation is described as data going out and data coming back, so the
//! sequencing, the failure policy and the header rewriting are verified, and
//! the caller performs the actual I/O.

pub mod ai_support;
pub mod backoffice;
pub mod config;
pub mod entities;
pub mod error;
pub mod handlers;
pub mod media;
pub mod ocr;
pub mod pb;
pub mod proxy;
pub mod repository;
pub mod service;
pub mod text;
