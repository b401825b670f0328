//! Career-guidance AI dispatch: prompt templates, provider wire formats and the
//! uniform result envelope, written without I/O so that every decision is verified.

pub mod errors;
pub mod json;
pub mod text;
pub mod types;
pub mod prompts;
pub mod http;
pub mod reply;
pub mod gemini;
pub mod groq;
pub mod service;
pub mod payload;
pub mod skills;
pub mod roadmap;
pub mod content;
pub mod progress;
