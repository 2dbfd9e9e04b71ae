//! The decisions of an inference router and of its workers.
//!
//! A router takes requests for inference and hands them, over the queues of a messaging service, to
//! workers that run models. The library decides everything that either of them does, from plain
//! values to plain values: names, documents, requests, and what follows on every outcome. Sending,
//! storing and reading JSON into records is left to the programs around it.
pub mod answer_laws;
pub mod clock;
pub mod course_laws;
pub mod exchange;
pub mod exchange_laws;
pub mod generation;
pub mod ids;
pub mod job;
pub mod job_laws;
pub mod json;
pub mod meeting_laws;
pub mod names;
pub mod naming_laws;
pub mod outside;
pub mod picking_laws;
pub mod presence;
pub mod presence_laws;
pub mod queue;
pub mod request_laws;
pub mod router;
pub mod setup;
pub mod setup_laws;
pub mod text;
pub mod text_laws;
pub mod web;
pub mod work_laws;
pub mod worker;
pub mod worker_laws;
