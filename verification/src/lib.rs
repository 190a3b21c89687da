//! Verified core of a social-media media-acquisition service.
//!
//! The library models the decision logic of the pipeline: URL
//! classification, extraction-result validation, retry and backoff
//! policy, bounded-concurrency batch planning, and the per-kind
//! orchestration state machines.  All network, browser and process
//! work is performed by an unverified shell that consults these
//! functions for every decision.

pub mod api;
pub mod batch;
pub mod downloader;
pub mod error;
pub mod extractor;
pub mod insta_post;
pub mod post;
pub mod media;
pub mod naming;
pub mod reel;
pub mod session;
pub mod story;
pub mod text;
