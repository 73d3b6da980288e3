//! Core of a two-stage, cache-accelerated flashcard generation pipeline:
//! content-addressed cache keys, a cache store with get-or-compute, a durable
//! queue state machine and a batch orchestrator.
pub mod batch;
pub mod cache;
pub mod error;
pub mod export;
pub mod monitoring;
pub mod names;
pub mod pipeline;
pub mod provider;
pub mod queue;
pub mod repository;
pub mod text;
pub mod vocabulary;
