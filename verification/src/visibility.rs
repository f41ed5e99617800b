use vstd::prelude::*;
use crate::api::{BoardDelta, Location, Player};

verus! {

/// The fixed visibility table: decks and the face-down shop pile are
/// concealed from everyone, a hand only from other players, and every
/// remaining zone is public.
pub open spec fn spec_can_see(player: Player, loc: Location) -> bool {
    match loc {
        Location::Deck(_) => false,
        Location::Discard(_) => true,
        Location::Field(_) => true,
        Location::FireGems => true,
        Location::Hand(p) => player == p,
        Location::Sacrifice => true,
        Location::Shop => true,
        Location::ShopDeck => false,
    }
}

/// Whether the viewer may learn the identity of a card at this zone.
#[verifier::when_used_as_spec(spec_can_see)]
pub fn can_see(player: Player, loc: Location) -> (r: bool)
    ensures
        r == spec_can_see(player, loc),
{
    match loc {
        Location::Deck(_) => false,
        Location::Discard(_) => true,
        Location::Field(_) => true,
        Location::FireGems => true,
        Location::Hand(p) => player == p,
        Location::Sacrifice => true,
        Location::Shop => true,
        Location::ShopDeck => false,
    }
}

/// The delta as the given viewer is allowed to receive it: a moved
/// card's identity is withheld unless the viewer may see at least one
/// end of the move; every other delta passes unchanged.
pub open spec fn spec_hide_card_info(player: Player, delta: BoardDelta) -> BoardDelta {
    match delta {
        BoardDelta::Move(from, index, to, card) => BoardDelta::Move(
            from,
            index,
            to,
            if spec_can_see(player, from) || spec_can_see(player, to) {
                card
            } else {
                None
            },
        ),
        d => d,
    }
}

/// Redacts one delta for one viewer.
pub fn hide_card_info(player: Player, delta: BoardDelta) -> (r: BoardDelta)
    ensures
        r == spec_hide_card_info(player, delta),
{
    match delta {
        BoardDelta::Move(from, index, to, card) => BoardDelta::Move(
            from,
            index,
            to,
            if can_see(player, from) || can_see(player, to) {
                card
            } else {
                None
            },
        ),
        d => d,
    }
}

} // verus!
