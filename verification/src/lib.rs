//! Etch writes a disk image onto a removable storage device and reads it
//! back. This library holds what the program decides, with contracts that
//! are checked by machine; reading, writing, windows and the network are
//! left to the program around it.
//!
//! The core, from the leaves up:
//!
//! * [`io::devices`] lists the devices that may be offered as targets, never
//!   the one that holds the root filesystem, and checks a chosen target
//!   directly before it is written.
//! * [`helper`] is the engine of the privileged process: write, sync, read
//!   back, compare. [`io::writer`] and [`verification`] hold its two phases.
//! * [`protocol`] is the line-by-line text that the privileged process
//!   prints, and [`monitor`] is its reader on the caller's side.
//!   [`session`] shows that the two agree on how a job ended.
//!
//! Around it: [`platforms`] tells what kind of image a file is, [`download`]
//! and [`db`] hold the rules of the catalog, [`ui`] the state behind the
//! windows, and [`updater`] the checks of the updater. [`text`], [`words`],
//! [`decimal`], [`paths`], [`cadence`] and [`metrics`] are what all of them
//! are built on.

pub mod cadence;
pub mod db;
pub mod decimal;
pub mod download;
pub mod helper;
pub mod io;
pub mod metrics;
pub mod models;
pub mod monitor;
pub mod paths;
pub mod platforms;
pub mod protocol;
pub mod session;
pub mod text;
pub mod ui;
pub mod updater;
pub mod verification;
pub mod words;
