//! Relay pipeline for forwarding multiplayer game-session events to a single
//! webhook-style notification channel.
//!
//! The pipeline has three parts: translating session events into outbound
//! messages (`translate`), rendering rich-text token sequences into the
//! destination's markup dialect (`richtext`), and an ordered delivery queue
//! (`relay`) whose worker retries a rate-limited message before moving on to
//! the next one.  `message` holds the unit of delivery and its JSON wire
//! encoding.

pub mod message;
pub mod relay;
pub mod richtext;
pub mod translate;
