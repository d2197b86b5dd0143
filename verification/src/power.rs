//! Power actions offered in the power menu.
use vstd::prelude::*;

verus! {

/// What a power entry does.
#[derive(Debug, Clone, Copy, PartialEq, Eq, Structural)]
pub enum PowerOption {
    Shutdown,
    Reboot,
}

/// An entry of the power menu.
#[derive(Debug, Clone)]
pub struct Power {
    pub action: PowerOption,
    /// Text shown in the menu.
    pub label: String,
    /// Command that performs the action, when one was configured.
    pub command: Option<String>,
}

} // verus!
