use vstd::prelude::*;

verus! {

/// The error kinds that any operation of the engine can surface.
/// Every error is recoverable at the command boundary: a failing
/// operation reports one of these and leaves no half-finished state
/// beyond what its contract states.
#[derive(Clone, Copy, Debug, PartialEq, Eq, Structural)]
pub enum EngineError {
    /// A dice notation string could not be parsed.
    InvalidDiceSpec,
    /// No combatant, player, monster or ability matched a query.
    NotFound,
    /// A turn-dependent operation ran while no encounter was active.
    NoActiveTurn,
    /// A limited-use ability was used with no uses left.
    NoUsesLeft,
    /// An admin-only operation was invoked by someone else.
    PermissionDenied,
}

/// The user-facing text of each error kind.
pub open spec fn spec_message(e: EngineError) -> Seq<char> {
    match e {
        EngineError::InvalidDiceSpec => "Invalid dicespec"@,
        EngineError::NotFound => "No results found."@,
        EngineError::NoActiveTurn => "It's nobody's turn!"@,
        EngineError::NoUsesLeft => "That ability has no uses left!"@,
        EngineError::PermissionDenied => "You're not the DM."@,
    }
}

impl EngineError {
    /// The text shown to the user when this error aborts a command.
    pub fn message(&self) -> (r: &'static str)
        ensures
            r@ == spec_message(*self),
    {
        match self {
            EngineError::InvalidDiceSpec => "Invalid dicespec",
            EngineError::NotFound => "No results found.",
            EngineError::NoActiveTurn => "It's nobody's turn!",
            EngineError::NoUsesLeft => "That ability has no uses left!",
            EngineError::PermissionDenied => "You're not the DM.",
        }
    }
}

} // verus!
