//! A task tracker: a collection of short textual tasks, the commands that
//! change it, and the messages that report what happened.
//!
//! The library holds no state of its own and touches no file. A program
//! around it reads the stored records, hands them to [`store::load_tasks`],
//! carries out one command with [`command::run_command`], and writes the
//! records of [`store::save_task`] back where the command changed anything.
//!
//! - [`task`]: the task, its status, and the record by which it is stored.
//! - [`store`]: the collection and the operations on it.
//! - [`command`]: reading a command from the arguments, carrying it out,
//!   and wording the outcome.
//! - [`laws`]: what holds of the collection whatever is done to it.
//! - [`text`]: decimal numbers and joined words.
//! - [`time`]: instants, the system clock, and how an instant is written.
//!
//! Two things are taken on trust from chrono, both in [`time`]: the reading
//! of the system clock, and the RFC 3339 writing of an instant. Everything
//! else is proved.

pub mod command;
pub mod laws;
pub mod store;
pub mod task;
pub mod text;
pub mod time;
