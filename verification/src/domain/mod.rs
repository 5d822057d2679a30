pub mod config;
pub mod data_provider;
pub mod state_summary;

pub use data_provider::DataProvider;
pub use state_summary::{StateSummary, StateSummaryAdapter, StateSummaryGateway, SummaryLog};
