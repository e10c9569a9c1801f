//! Drives the `dd` utility: a configuration is built up by chained setters, the
//! binary is vetted by the version that it reports, and the copy is run with
//! the arguments that the configuration asks for.
//!
//! The library starts no process itself. A run is a short exchange with the
//! caller: [`Dd::start`] names the first command to run, and [`Dd::step`] takes
//! the outcome of each command and names the next one, or the end of the run.
//!
//! ```
//! use rdd::process::{Outcome, Step};
//! use rdd::Dd;
//!
//! let mut dd = Dd::new("dd");
//! dd.input("disk.img").output("/dev/null").bs("4M").count(5);
//!
//! let mut step = dd.start();
//! let result = loop {
//!     step = match step {
//!         // Here the caller runs `invocation.program` with `invocation.args`.
//!         Step::Run { phase, invocation: _ } => dd.step(
//!             phase,
//!             Outcome::Exited {
//!                 success: true,
//!                 stdout: b"dd (coreutils) 9.4\n".to_vec(),
//!                 stderr: Vec::new(),
//!             },
//!         ),
//!         Step::Done(result) => break result,
//!     };
//! };
//! assert_eq!(result, Ok("dd (coreutils) 9.4\n".to_string()));
//! ```
pub mod dd;
pub mod decimal;
pub mod error;
pub mod laws;
pub mod process;
pub mod text;
pub mod version;

pub use dd::Dd;
pub use error::DdError;
pub use process::{Invocation, Outcome, Phase, Step};
