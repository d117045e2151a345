//! The state that the session publishes to its observers.

use vstd::prelude::*;

verus! {

/// Why the user is asked to confirm a download of the game database.
#[derive(Clone, Copy, Debug, PartialEq, Eq, Structural)]
pub enum ConfirmationType {
    Initial,
    Update,
}

/// The phase of the application.
#[derive(Clone, Debug)]
pub enum State {
    Starting,
    CheckingForUpdate,
    /// An update to the given version is available.
    WaitingForUpdateConfirmation(String),
    Updating,
    Updated,
    CheckingForData,
    WaitingForDownloadConfirmation(ConfirmationType),
    Downloading,
    Main,
}

/// When each record category was last received, as ticks of the caller's
/// clock; `None` for a category not received in this capture session.
#[derive(Clone, Copy, Debug, PartialEq, Eq, Structural)]
pub struct DataUpdated {
    pub achievements_updated: Option<u64>,
    pub characters_updated: Option<u64>,
    pub items_updated: Option<u64>,
}

impl DataUpdated {
    /// No category received yet.
    pub fn new() -> (r: DataUpdated)
        ensures
            r.achievements_updated is None,
            r.characters_updated is None,
            r.items_updated is None,
    {
        DataUpdated { achievements_updated: None, characters_updated: None, items_updated: None }
    }
}

impl Default for DataUpdated {
    fn default() -> (r: DataUpdated)
        ensures
            r.achievements_updated is None,
            r.characters_updated is None,
            r.items_updated is None,
    {
        DataUpdated::new()
    }
}

/// The snapshot published on every change: the phase, whether a capture is
/// active, and the freshness of the records.
#[derive(Clone, Debug)]
pub struct AppState {
    pub state: State,
    pub capturing: bool,
    pub updated: DataUpdated,
}

impl AppState {
    /// The state at start-up: starting, not capturing, no records.
    pub fn new() -> (r: AppState)
        ensures
            r.state is Starting,
            !r.capturing,
            r.updated.achievements_updated is None,
            r.updated.characters_updated is None,
            r.updated.items_updated is None,
    {
        AppState { state: State::Starting, capturing: false, updated: DataUpdated::new() }
    }
}

} // verus!
