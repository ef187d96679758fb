//! Core of a desktop gold and forex price ticker: the settings held by the
//! process, the supervisor of the streaming price feed, and the planning of
//! one-shot requests to secondary price sources.

pub mod text;
pub mod settings;
pub mod store;
pub mod supervisor;
pub mod feed;
pub mod fetch;
