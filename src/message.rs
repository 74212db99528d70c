use vstd::prelude::*;

use crate::finalize::Error;

verus! {

/// An interaction event that only the step it is meant for acts on.
#[derive(Clone, Debug, PartialEq, Eq)]
pub enum StepMessage {
    /// The operator chose (or declined) the daemon's default bitcoind settings.
    UseDefaultBitcoind(bool),
    /// The descriptor text changed; the flag says whether it parses.
    DescriptorEdited(String, bool),
    /// The bitcoind address changed; the flag says whether it is a socket address.
    AddressEdited(String, bool),
    /// The path to bitcoind's cookie file changed.
    CookiePathEdited(String),
}

/// An event handed to the installer.
#[derive(Debug, PartialEq, Eq)]
pub enum Message {
    /// Commit the current step and move on.
    Next,
    /// Go back one step.
    Previous,
    /// Start the finalization.
    Install,
    /// The finalization ended: the path of the application configuration file,
    /// or what failed.
    Installed(Result<String, Error>),
    /// The window is being closed.
    CloseRequested,
    /// An event for the current step.
    Step(StepMessage),
}

} // verus!
