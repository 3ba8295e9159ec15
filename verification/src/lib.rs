//! Client-side protocol core for a remote captcha-solving service: task
//! descriptions, reply decoding, and the submit/poll state machine.

pub mod error;
pub mod proxy;
pub mod response;
pub mod solution;
pub mod task_id;
pub mod solver;
pub mod guarantees;
pub mod captcha_arguments;
pub mod form;
pub mod web_url;
pub mod captcha_types;
pub mod report;
