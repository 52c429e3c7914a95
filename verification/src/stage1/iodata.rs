//! The data the helper reads from the plugin and answers with.
use vstd::prelude::*;
use crate::stage0::iodata::{DataExchange, DataSource};
use crate::stage1::config::Config;

verus! {

/// Where the helper finds a requested version of itself.
pub struct DataAutoUpdate {
    pub repository: String,
    pub version: String,
}

/// What the helper keeps for itself between hooks.
pub struct DataForward {
    pub config: Config,
    pub auto_update: Option<DataAutoUpdate>,
}

/// The whole record, as the helper sees it.
pub struct IOData {
    pub source: DataSource,
    pub exchange: DataExchange,
    pub forward: Option<DataForward>,
}

} // verus!
