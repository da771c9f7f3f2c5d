//! Prepares the ffmpeg sources for use as a loadable library.
//!
//! Two things are decided here, and nothing is done: the library reads no
//! file and starts no process.
//!
//! - [`orchestrator`] holds the order of the set-up: the tool is
//!   bootstrapped, the package is installed with its features, and the
//!   archive of the sources is unpacked. Each stage is a state machine that a
//!   driver steps through, and each is satisfied at once where its work has
//!   been done before.
//! - [`patcher`] holds the edits that make entry points of the program's
//!   functions, built on the [`scanner`] that finds where a block of C ends,
//!   and [`addon_preparer`] applies them to the sources at hand. An edit
//!   applied to its own output changes nothing.
//!
//! Text is bytes throughout ([`text`]); paths are strings ([`paths`]).

pub mod addon_preparer;
pub mod orchestrator;
pub mod package;
pub mod patcher;
pub mod paths;
pub mod scanner;
pub mod templates;
pub mod text;
pub mod vcpkg_manager;
pub mod whitespace;
