//! Polls CI backends, derives one health summary per provider and fans it
//! out to every registered sink.

pub mod data_providers;
pub mod domain;
pub mod text;
pub mod use_cases;
