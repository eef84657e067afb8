//! What the window decides: the state of its action area, the wording of
//! its messages and the rules of its update check. Drawing is left to
//! whoever owns the widgets.

pub mod iso_browser;
pub mod update;
pub mod window;
