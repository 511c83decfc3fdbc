use vstd::prelude::*;

verus! {

/// The broad class of a rejected command.
#[derive(Debug, Clone, Copy, PartialEq, Eq, Structural)]
pub enum ErrorKind {
    /// A lookup by name found nothing.
    NotFound,
    /// The command does not fit the current state.
    InvalidState,
}

/// A rejected command or query, with the identifier it was about.
#[derive(Debug, Clone, PartialEq, Eq)]
pub enum GameError {
    ColonyNotFound(String),
    ResearchNotFound(String),
    BuildingTypeNotFound(String),
    /// The colony already has a construction under way.
    ColonyBusy(String),
    /// The research was already started, or its prerequisites are not met.
    IneligibleResearch(String),
    /// The solar system has no planets.
    NoPlanets,
}

pub open spec fn error_kind(e: GameError) -> ErrorKind {
    match e {
        GameError::ColonyNotFound(_) => ErrorKind::NotFound,
        GameError::ResearchNotFound(_) => ErrorKind::NotFound,
        GameError::BuildingTypeNotFound(_) => ErrorKind::NotFound,
        GameError::ColonyBusy(_) => ErrorKind::InvalidState,
        GameError::IneligibleResearch(_) => ErrorKind::InvalidState,
        GameError::NoPlanets => ErrorKind::InvalidState,
    }
}

impl GameError {
    pub fn kind(&self) -> (r: ErrorKind)
        ensures
            r == error_kind(*self),
    {
        match self {
            GameError::ColonyNotFound(_) => ErrorKind::NotFound,
            GameError::ResearchNotFound(_) => ErrorKind::NotFound,
            GameError::BuildingTypeNotFound(_) => ErrorKind::NotFound,
            GameError::ColonyBusy(_) => ErrorKind::InvalidState,
            GameError::IneligibleResearch(_) => ErrorKind::InvalidState,
            GameError::NoPlanets => ErrorKind::InvalidState,
        }
    }
}

} // verus!
