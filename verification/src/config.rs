//! The bot's startup configuration. Reading and deserializing the
//! configuration files is the caller's work; this module holds the validated
//! values every component is constructed from.

use vstd::prelude::*;

use crate::commands::radio::RadioConfig;
use crate::commands::simple_reply::SimpleReplyCommandHandler;

verus! {

/// The bulk configuration data kept beside the main configuration file.
pub struct ConfigData {
    pub simple_reply_commands: SimpleReplyCommandHandler,
}

/// The bot's configuration, loaded once at startup.
pub struct Config {
    pub bot_user_id: String,
    pub data_file: String,
    pub data: Option<ConfigData>,
    pub radio: RadioConfig,
}

impl Config {
    /// The bulk configuration data. Call only once the data has been loaded
    /// beside the configuration.
    pub fn data(&self) -> (r: &ConfigData)
        requires
            self.data is Some,
        ensures
            self.data == Some(*r),
    {
        self.data.as_ref().unwrap()
    }
}

} // verus!
