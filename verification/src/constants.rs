//! Names of files and directories.

use vstd::prelude::*;

verus! {

/// The project's configuration file.
pub const CONFIG_FILENAME: &'static str = "ci.yaml";

/// The local configuration file, which is not checked in.
pub const LOCAL_CONFIG_FILENAME: &'static str = "local.yaml";

/// The file that keeps the local configuration out of version control.
pub const GITIGNORE_FILENAME: &'static str = ".gitignore";

/// The directory at the project root that holds the configuration directory.
pub const CONFIG_DIR_PARENT: &'static str = ".config";

/// The configuration directory inside it.
pub const CONFIG_DIR_NAME: &'static str = "selfci";

/// The socket of the merge queue daemon.
pub const MQ_SOCK_FILENAME: &'static str = "mq.sock";

/// The file that holds the daemon's process ID.
pub const MQ_PID_FILENAME: &'static str = "mq.pid";

/// The file that holds the root of the daemon's project.
pub const MQ_DIR_FILENAME: &'static str = "mq.dir";

/// The log of a daemon in the background.
pub const MQ_LOG_FILENAME: &'static str = "mq.log";

/// The names of files and directories that others find them under.
pub proof fn law_files_go_by_their_names()
    ensures
        CONFIG_FILENAME@ == "ci.yaml"@,
        LOCAL_CONFIG_FILENAME@ == "local.yaml"@,
        GITIGNORE_FILENAME@ == ".gitignore"@,
        CONFIG_DIR_PARENT@ == ".config"@,
        CONFIG_DIR_NAME@ == "selfci"@,
        MQ_SOCK_FILENAME@ == "mq.sock"@,
        MQ_PID_FILENAME@ == "mq.pid"@,
        MQ_DIR_FILENAME@ == "mq.dir"@,
        MQ_LOG_FILENAME@ == "mq.log"@,
{
}

} // verus!
