//! Players: an identifier, a display name and one of the two marks.

use vstd::prelude::*;

verus! {

/// One of the two marks a player can hold on the board.
#[derive(Debug, Clone, Copy, PartialEq, Eq, Structural)]
pub enum PlayerSymbol {
    X,
    O,
}

impl PlayerSymbol {
    /// The complementary mark.
    pub open spec fn spec_opposite(self) -> PlayerSymbol {
        match self {
            PlayerSymbol::X => PlayerSymbol::O,
            PlayerSymbol::O => PlayerSymbol::X,
        }
    }

    /// Returns the complementary mark.
    #[verifier::when_used_as_spec(spec_opposite)]
    pub fn opposite(self) -> (r: PlayerSymbol)
        ensures
            r == self.spec_opposite(),
    {
        match self {
            PlayerSymbol::X => PlayerSymbol::O,
            PlayerSymbol::O => PlayerSymbol::X,
        }
    }
}

/// A participant of a match. The identifier is minted at session start
/// and never changes; the symbol is assigned when the player enters a
/// match. The outbound connection itself is owned by the surrounding
/// application, keyed by the player identifier.
#[derive(Debug)]
pub struct Player {
    pub id: String,
    pub name: String,
    pub symbol: PlayerSymbol,
}

impl Player {
    /// A player with a freshly minted identifier.
    pub fn new(name: String, symbol: PlayerSymbol) -> (r: Player)
        ensures
            r.name@ == name@,
            r.symbol == symbol,
            r.id@.len() >= 6,
    {
        Player { id: crate::utils::generate_id(), name, symbol }
    }

    /// Builds a player with the given identifier, name and mark.
    pub fn with_id(id: String, name: String, symbol: PlayerSymbol) -> (r: Player)
        ensures
            r.id@ == id@,
            r.name@ == name@,
            r.symbol == symbol,
    {
        Player { id, name, symbol }
    }

    pub fn set_symbol(&mut self, symbol: PlayerSymbol)
        ensures
            final(self).symbol == symbol,
            final(self).id@ == old(self).id@,
            final(self).name@ == old(self).name@,
    {
        self.symbol = symbol;
    }

    pub fn get_symbol(&self) -> (r: PlayerSymbol)
        ensures
            r == self.symbol,
    {
        self.symbol
    }

    pub fn get_id(&self) -> (r: String)
        ensures
            r@ == self.id@,
    {
        self.id.clone()
    }

    pub fn get_name(&self) -> (r: String)
        ensures
            r@ == self.name@,
    {
        self.name.clone()
    }
}

impl Clone for Player {
    /// A copy with the same identifier, name and mark.
    fn clone(&self) -> (r: Self)
        ensures
            r.id@ == self.id@,
            r.name@ == self.name@,
            r.symbol == self.symbol,
    {
        Player { id: self.id.clone(), name: self.name.clone(), symbol: self.symbol }
    }
}

} // verus!
