//! Local continuous integration with a merge queue.

pub mod candidate_check;
pub mod check;
pub mod client;
pub mod config;
pub mod constants;
pub mod daemon;
pub mod duct_util;
pub mod envs;
pub mod error;
pub mod exit_codes;
pub mod hooks;
pub mod jj_merge;
pub mod jj_output;
pub mod listing;
pub mod mq_protocol;
pub mod opts;
pub mod process_exit;
pub mod protocol;
pub mod publish;
pub mod queue;
pub mod requests;
pub mod revision;
pub mod run;
pub mod script;
pub mod startup;
pub mod step;
pub mod stop;
pub mod test_merge;
pub mod text;
pub mod vcs;
pub mod workdirs;
pub mod worker;

pub use config::{init_config, read_config, CloneMode, InitResult, SelfCIConfig};
pub use error::{MainError, MergeError, VCSError};
pub use vcs::{detect_vcs, get_vcs, parse_vcs, VCS};
