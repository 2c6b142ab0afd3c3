//! Platform-dispatched command building and supervision for a directory
//! copy assistant.
//!
//! The library turns three user intents (preserve metadata, mirror-delete,
//! validate by checksum) and a source/target directory pair into the exact
//! argument vector of the host's native bulk-copy tool: `rsync` on POSIX
//! hosts, `ROBOCOPY` on Windows hosts. Resolution is a pure function; the
//! invocation layer locates the executable, and classifies every way a
//! launch can fail, before any process is spawned by the caller.

pub mod app_state;
pub mod invoker;
pub mod options;
pub mod paths;
pub mod resolver;

pub use app_state::BlaupauseApp;
pub use app_state::get_string_from_buffer;
pub use invoker::CopyError;
pub use invoker::InvocationEvent;
pub use invoker::InvocationState;
pub use invoker::classify_exit;
pub use invoker::invocation_step;
pub use invoker::is_existing_directory;
pub use invoker::start_invocation;
pub use invoker::validate_endpoints;
pub use options::CopyEndpoints;
pub use options::CopyOptions;
pub use options::Platform;
pub use resolver::ResolvedCommand;
pub use resolver::native_copy_args;
pub use resolver::native_copy_command;
pub use resolver::resolve;
