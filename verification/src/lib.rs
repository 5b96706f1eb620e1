//! Watching a growing log file for marker lines and planning the timed
//! remote commands that answer them.
//!
//! The library holds the decisions and leaves the doing to its caller. The
//! caller reads the directory, the file and the clock, sends requests and
//! sleeps; it hands the library plain values and carries out what the
//! library returns.
//!
//! - [`log_locator`] picks the log file to follow.
//! - [`log_file_reader`] keeps the cursor into that file and yields its
//!   complete lines, each once; [`reader_laws`] states what holds of it.
//! - [`marker`] classifies a line by the marker it ends with.
//! - [`log_file_debounce_handler`] runs one drain pass per change report and
//!   makes a dispatch for every event found.
//! - [`dispatch`] is the timed sequence of commands of one dispatch;
//!   [`dispatch_laws`] states what holds of every run of it.
//! - [`pishock_client`] builds the requests for the remote service.
//! - [`settings`] is the configuration shared with the settings form.

pub mod dispatch;
pub mod dispatch_laws;
pub mod log_file_debounce_handler;
pub mod log_file_reader;
pub mod log_locator;
pub mod marker;
pub mod pishock_client;
pub mod reader_laws;
pub mod settings;
pub mod span;
pub mod text;
