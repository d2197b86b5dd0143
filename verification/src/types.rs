//! Small value types shared by the greeter: authentication outcome, UI mode,
//! secret display and greeting alignment.
use vstd::prelude::*;

verus! {

/// Default log file path
pub const DEFAULT_LOG_FILE: &'static str = "/tmp/tuigreet.log";

/// Default asterisk character for password masking
pub const DEFAULT_ASTERISKS_CHARS: &'static str = "*";

/// Default X session wrapper command
pub const DEFAULT_XSESSION_WRAPPER: &'static str = "startx";

/// Authentication status returned from PAM operations
#[derive(Debug, Copy, Clone, PartialEq, Eq, Structural)]
pub enum AuthStatus {
    /// Authentication succeeded
    Success,
    /// Authentication failed
    Failure,
    /// User cancelled authentication
    Cancel,
}

impl AuthStatus {
    /// The text this status is displayed as: the name of its variant.
    pub fn to_string(&self) -> (r: String)
        ensures
            r@ == (match self {
                AuthStatus::Success => "Success"@,
                AuthStatus::Failure => "Failure"@,
                AuthStatus::Cancel => "Cancel"@,
            }),
    {
        match self {
            AuthStatus::Success => String::from_str("Success"),
            AuthStatus::Failure => String::from_str("Failure"),
            AuthStatus::Cancel => String::from_str("Cancel"),
        }
    }
}

/// UI mode determining which input/menu is displayed
#[derive(Debug, Copy, Clone, PartialEq, Eq, Structural)]
pub enum Mode {
    /// Username input field
    Username,
    /// Password input field
    Password,
    /// Action selection (login/cancel)
    Action,
    /// User selection menu
    Users,
    /// Command input field
    Command,
    /// Session selection menu
    Sessions,
    /// Power menu (shutdown/reboot)
    Power,
    /// Background animation selection menu
    Background,
    /// Processing/authenticating state
    Processing,
}

impl Default for Mode {
    fn default() -> (r: Self)
        ensures
            r == Mode::Username,
    {
        Mode::Username
    }
}

/// How to display secret/password input
#[derive(Debug, Clone)]
pub enum SecretDisplay {
    /// Hide all characters
    Hidden,
    /// Show replacement characters (e.g., asterisks)
    Character(String),
}

impl Default for SecretDisplay {
    fn default() -> (r: Self)
        ensures
            r is Hidden,
    {
        SecretDisplay::Hidden
    }
}

impl SecretDisplay {
    /// Returns true if secrets should be shown (as replacement characters)
    pub fn show(&self) -> (r: bool)
        ensures
            r == (self is Character),
    {
        match self {
            SecretDisplay::Hidden => false,
            SecretDisplay::Character(_) => true,
        }
    }
}

/// Text alignment for greeting message
#[derive(Debug, Clone, Copy, PartialEq, Eq, Structural)]
pub enum GreetAlign {
    /// Center alignment
    Center,
    /// Left alignment
    Left,
    /// Right alignment
    Right,
}

impl Default for GreetAlign {
    fn default() -> (r: Self)
        ensures
            r == GreetAlign::Center,
    {
        GreetAlign::Center
    }
}

} // verus!
