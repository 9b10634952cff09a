use vstd::prelude::*;

pub mod interaction;
pub mod key_event;
pub mod rime;
mod text;
pub mod tui;

verus! {

pub const DISTRIBUTION_NAME: &'static str = "Rime";

pub const DISTRIBUTION_CODE_NAME: &'static str = "Rime";

pub const DISTRIBUTION_VERSION: &'static str = "0.0.0";

pub const APP_NAME: &'static str = "rime-tui";

} // verus!
