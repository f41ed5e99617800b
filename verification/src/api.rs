use vstd::prelude::*;
use vstd::pervasive::VecAdditionalExecFns;
use crate::cards::{Card, CardInField};

verus! {

/// A player's index into the board's roster of mats.
pub type Player = usize;

/// The closed set of commands a player may submit.
#[derive(Clone, Debug)]
pub enum PlayerAction {
    Play(usize, Vec<EffectArgument>),
    ActivateExpendAbility(usize, Vec<EffectArgument>),
    ActivateAllyAbility(usize, Vec<EffectArgument>),
    ActivateSacrificeAbility(usize, Vec<EffectArgument>),
    AttackPlayer(Player, usize),
    AttackPlayerChampion(Player, usize),
    PurchaseFromShop(usize),
    Discard(usize),
    PurchaseFireGem,
    EndTurn,
}

/// Caller-supplied disambiguation for composite or targeted effects,
/// consumed in the order the effects are resolved.
#[derive(Clone, Copy, Debug, PartialEq, Eq, Structural)]
pub enum EffectArgument {
    ChooseFirst,
    ChooseSecond,
    Champion(Player, usize),
    CardInHand(usize),
    CardInDiscard(usize),
    Opponent(usize),
}

/// An addressable zone of the board.
#[derive(Clone, Copy, Debug, PartialEq, Eq, Structural)]
pub enum Location {
    Hand(Player),
    Discard(Player),
    Deck(Player),
    Field(Player),
    Sacrifice,
    Shop,
    ShopDeck,
    FireGems,
}

/// One atomic, replayable mutation of the board. A `Move` may omit the
/// card identity when the receiving viewer is not allowed to see it.
#[derive(Clone, Debug)]
pub enum BoardDelta {
    Move(Location, usize, Location, Option<Card>),
    DecreaseDiscardAmount(Player, usize),
    DecreaseHealth(Player, usize),
    DecreaseCombat(Player, usize),
    DecreaseGold(Player, usize),
    IncreaseDiscardAmount(Player, usize),
    IncreaseHealth(Player, usize),
    IncreaseCombat(Player, usize),
    IncreaseGold(Player, usize),
    ChangeCurrentPlayer(Player),
    SetExpendAbilityUsed(Player, usize, bool),
    SetAllyAbilityUsed(Player, usize, bool),
    /// Does not change the board: lets every viewer observe what the
    /// acting player attempted.
    PlayerDeclaredAction(PlayerAction),
    /// Does not change the board: signals that a deck was replenished
    /// from its discard pile and reshuffled.
    ShuffleDeck(Player),
    GameOver,
}

/// Why a delta could not be applied to a scoped view.
#[derive(Clone, Debug)]
pub enum BoardDeltaError {
    CardMismatch(Card, Option<Card>),
    MissingCard(Location),
    WrongSourceLocation,
    StatUnderflow,
}

/// A viewer's projection of one player's mat: concealed zones (hand,
/// deck) are reduced to counts, public zones carry full identities.
#[derive(Clone, Debug)]
pub struct Mat {
    pub field: Vec<CardInField>,
    pub hand: usize,
    pub name: String,
    pub discard: Vec<Card>,
    pub deck: usize,
    pub lives: usize,
    pub combat: usize,
    pub gold: usize,
    pub must_discard: usize,
}

/// A viewer's projection of the whole board, advanced only by applying
/// received deltas.
#[derive(Clone, Debug)]
pub struct Board {
    pub shop: Vec<Card>,
    pub shop_deck: usize,
    pub gems: usize,
    pub sacrificed: Vec<Card>,
    pub current_player: Player,
    pub players: usize,
    pub mats: Vec<Mat>,
    pub you: Player,
    pub your_hand: Vec<Card>,
    pub game_over: bool,
}

/// The mathematical value of a scoped mat.
#[verifier::ext_equal]
pub struct MatModel {
    pub field: Seq<CardInField>,
    pub hand: usize,
    pub name: Seq<char>,
    pub discard: Seq<Card>,
    pub deck: usize,
    pub lives: usize,
    pub combat: usize,
    pub gold: usize,
    pub must_discard: usize,
}

/// The mathematical value of a scoped board.
#[verifier::ext_equal]
pub struct BoardModel {
    pub shop: Seq<Card>,
    pub shop_deck: usize,
    pub gems: usize,
    pub sacrificed: Seq<Card>,
    pub current_player: Player,
    pub players: usize,
    pub mats: Seq<MatModel>,
    pub you: Player,
    pub your_hand: Seq<Card>,
    pub game_over: bool,
}

impl View for Mat {
    type V = MatModel;

    open spec fn view(&self) -> MatModel {
        MatModel {
            field: self.field@,
            hand: self.hand,
            name: self.name@,
            discard: self.discard@,
            deck: self.deck,
            lives: self.lives,
            combat: self.combat,
            gold: self.gold,
            must_discard: self.must_discard,
        }
    }
}

impl View for Board {
    type V = BoardModel;

    open spec fn view(&self) -> BoardModel {
        BoardModel {
            shop: self.shop@,
            shop_deck: self.shop_deck,
            gems: self.gems,
            sacrificed: self.sacrificed@,
            current_player: self.current_player,
            players: self.players,
            mats: self.mats@.map_values(|m: Mat| m@),
            you: self.you,
            your_hand: self.your_hand@,
            game_over: self.game_over,
        }
    }
}

/// Trait of a transport through which a player sees the match and
/// submits actions; implementations live outside the engine.
pub trait Api {
    type Error;

    fn get_board<'a>(&'a self) -> &'a Board;

    fn do_action(&mut self, action: PlayerAction) -> Result<(), Self::Error>;

    fn poll_deltas(&mut self) -> Vec<BoardDelta>;
}

} // verus!

verus! {

/// The scoped board with one mat replaced.
pub open spec fn with_view_mat(b: BoardModel, p: usize, mat: MatModel) -> BoardModel {
    BoardModel { mats: b.mats.update(p as int, mat), ..b }
}

/// Whether a delta addresses only positions that exist in this view,
/// so that applying it cannot fail on a bound.
pub open spec fn delta_in_range(b: BoardModel, d: BoardDelta) -> bool {
    match d {
        BoardDelta::Move(from, index, to, card) => {
            let src_ok = match from {
                Location::Deck(p) => p < b.mats.len() && b.mats[p as int].deck >= 1,
                Location::Hand(p) => p < b.mats.len() && b.mats[p as int].hand >= 1 && (p == b.you
                    ==> index < b.your_hand.len()),
                Location::Field(p) => p < b.mats.len() && index < b.mats[p as int].field.len(),
                Location::Discard(p) => p < b.mats.len() && index < b.mats[
                    p as int
                ].discard.len(),
                Location::Shop => index < b.shop.len(),
                Location::Sacrifice => true,
                Location::ShopDeck => b.shop_deck >= 1,
                Location::FireGems => b.gems >= 1,
            };
            let dst_ok = match to {
                Location::Deck(p) => p < b.mats.len() && b.mats[p as int].deck < usize::MAX,
                Location::Hand(p) => p < b.mats.len() && b.mats[p as int].hand < usize::MAX,
                Location::Field(p) => p < b.mats.len(),
                Location::Discard(p) => p < b.mats.len(),
                Location::Sacrifice => true,
                Location::Shop => true,
                Location::ShopDeck => b.shop_deck < usize::MAX,
                Location::FireGems => b.gems < usize::MAX,
            };
            src_ok && dst_ok
        },
        BoardDelta::DecreaseDiscardAmount(p, _) => p < b.mats.len(),
        BoardDelta::DecreaseHealth(p, _) => p < b.mats.len(),
        BoardDelta::DecreaseCombat(p, _) => p < b.mats.len(),
        BoardDelta::DecreaseGold(p, _) => p < b.mats.len(),
        BoardDelta::IncreaseDiscardAmount(p, x) => p < b.mats.len() && b.mats[
            p as int
        ].must_discard + x <= usize::MAX,
        BoardDelta::IncreaseHealth(p, x) => p < b.mats.len() && b.mats[p as int].lives + x
            <= usize::MAX,
        BoardDelta::IncreaseCombat(p, x) => p < b.mats.len() && b.mats[p as int].combat + x
            <= usize::MAX,
        BoardDelta::IncreaseGold(p, x) => p < b.mats.len() && b.mats[p as int].gold + x
            <= usize::MAX,
        BoardDelta::ChangeCurrentPlayer(_) => true,
        BoardDelta::SetExpendAbilityUsed(p, i, _) => p < b.mats.len() && i < b.mats[
            p as int
        ].field.len(),
        BoardDelta::SetAllyAbilityUsed(p, i, _) => p < b.mats.len() && i < b.mats[
            p as int
        ].field.len(),
        BoardDelta::PlayerDeclaredAction(_) => true,
        BoardDelta::ShuffleDeck(_) => true,
        BoardDelta::GameOver => true,
    }
}

/// What applying one delta does to a scoped view: each delta maps to
/// exactly one structural change, and a carried identity that
/// contradicts what the viewer already knows is rejected with the view
/// unchanged.
pub open spec fn apply_delta_model(b: BoardModel, d: BoardDelta) -> Result<
    BoardModel,
    BoardDeltaError,
> {
    match d {
        BoardDelta::Move(from, index, to, card) => {
            let removed: Option<Card> = match from {
                Location::Hand(p) => if p == b.you {
                    Some(b.your_hand[index as int])
                } else {
                    None
                },
                Location::Field(p) => Some(b.mats[p as int].field[index as int].card),
                Location::Discard(p) => Some(b.mats[p as int].discard[index as int]),
                Location::Shop => Some(b.shop[index as int]),
                Location::FireGems => Some(Card::FireGem),
                _ => None,
            };
            if from is Sacrifice {
                Err(BoardDeltaError::WrongSourceLocation)
            } else if removed is Some && removed != card {
                Err(BoardDeltaError::CardMismatch(removed->0, card))
            } else if (match to {
                Location::Hand(p) => p == b.you && card is None,
                Location::Field(_) => card is None,
                Location::Discard(_) => card is None,
                Location::Sacrifice => card is None,
                Location::Shop => card is None,
                _ => false,
            }) {
                Err(BoardDeltaError::MissingCard(to))
            } else if to is FireGems && card != Some(Card::FireGem) {
                Err(BoardDeltaError::CardMismatch(Card::FireGem, card))
            } else {
                let b1 = match from {
                    Location::Deck(p) => with_view_mat(
                        b,
                        p,
                        MatModel {
                            deck: (b.mats[p as int].deck - 1) as usize,
                            ..b.mats[p as int]
                        },
                    ),
                    Location::Hand(p) => {
                        let b2 = with_view_mat(
                            b,
                            p,
                            MatModel {
                                hand: (b.mats[p as int].hand - 1) as usize,
                                ..b.mats[p as int]
                            },
                        );
                        if p == b.you {
                            BoardModel { your_hand: b.your_hand.remove(index as int), ..b2 }
                        } else {
                            b2
                        }
                    },
                    Location::Field(p) => with_view_mat(
                        b,
                        p,
                        MatModel {
                            field: b.mats[p as int].field.remove(index as int),
                            ..b.mats[p as int]
                        },
                    ),
                    Location::Discard(p) => with_view_mat(
                        b,
                        p,
                        MatModel {
                            discard: b.mats[p as int].discard.remove(index as int),
                            ..b.mats[p as int]
                        },
                    ),
                    Location::Shop => BoardModel { shop: b.shop.remove(index as int), ..b },
                    Location::Sacrifice => b,
                    Location::ShopDeck => BoardModel {
                        shop_deck: (b.shop_deck - 1) as usize,
                        ..b
                    },
                    Location::FireGems => BoardModel { gems: (b.gems - 1) as usize, ..b },
                };
                let b3 = match to {
                    Location::Deck(p) => with_view_mat(
                        b1,
                        p,
                        MatModel {
                            deck: (b1.mats[p as int].deck + 1) as usize,
                            ..b1.mats[p as int]
                        },
                    ),
                    Location::Hand(p) => {
                        let b2 = with_view_mat(
                            b1,
                            p,
                            MatModel {
                                hand: (b1.mats[p as int].hand + 1) as usize,
                                ..b1.mats[p as int]
                            },
                        );
                        if p == b.you {
                            BoardModel { your_hand: b2.your_hand.push(card->0), ..b2 }
                        } else {
                            b2
                        }
                    },
                    Location::Field(p) => with_view_mat(
                        b1,
                        p,
                        MatModel {
                            field: b1.mats[p as int].field.push(
                                CardInField {
                                    card: card->0,
                                    expend_ability_used: false,
                                    ally_ability_used: false,
                                },
                            ),
                            ..b1.mats[p as int]
                        },
                    ),
                    Location::Discard(p) => with_view_mat(
                        b1,
                        p,
                        MatModel {
                            discard: b1.mats[p as int].discard.push(card->0),
                            ..b1.mats[p as int]
                        },
                    ),
                    Location::Sacrifice => BoardModel {
                        sacrificed: b1.sacrificed.push(card->0),
                        ..b1
                    },
                    Location::Shop => BoardModel { shop: b1.shop.push(card->0), ..b1 },
                    Location::ShopDeck => BoardModel {
                        shop_deck: (b1.shop_deck + 1) as usize,
                        ..b1
                    },
                    Location::FireGems => BoardModel { gems: (b1.gems + 1) as usize, ..b1 },
                };
                Ok(b3)
            }
        },
        BoardDelta::IncreaseHealth(p, x) => Ok(
            with_view_mat(
                b,
                p,
                MatModel { lives: (b.mats[p as int].lives + x) as usize, ..b.mats[p as int] },
            ),
        ),
        BoardDelta::DecreaseHealth(p, x) => Ok(
            with_view_mat(
                b,
                p,
                MatModel {
                    lives: b.mats[p as int].lives.saturating_sub(x),
                    ..b.mats[p as int]
                },
            ),
        ),
        BoardDelta::IncreaseCombat(p, x) => Ok(
            with_view_mat(
                b,
                p,
                MatModel { combat: (b.mats[p as int].combat + x) as usize, ..b.mats[p as int] },
            ),
        ),
        BoardDelta::DecreaseCombat(p, x) => Ok(
            with_view_mat(
                b,
                p,
                MatModel {
                    combat: b.mats[p as int].combat.saturating_sub(x),
                    ..b.mats[p as int]
                },
            ),
        ),
        BoardDelta::IncreaseGold(p, x) => Ok(
            with_view_mat(
                b,
                p,
                MatModel { gold: (b.mats[p as int].gold + x) as usize, ..b.mats[p as int] },
            ),
        ),
        BoardDelta::DecreaseGold(p, x) => Ok(
            with_view_mat(
                b,
                p,
                MatModel { gold: b.mats[p as int].gold.saturating_sub(x), ..b.mats[p as int] },
            ),
        ),
        BoardDelta::IncreaseDiscardAmount(p, x) => Ok(
            with_view_mat(
                b,
                p,
                MatModel {
                    must_discard: (b.mats[p as int].must_discard + x) as usize,
                    ..b.mats[p as int]
                },
            ),
        ),
        BoardDelta::DecreaseDiscardAmount(p, x) => Ok(
            with_view_mat(
                b,
                p,
                MatModel {
                    must_discard: b.mats[p as int].must_discard.saturating_sub(x),
                    ..b.mats[p as int]
                },
            ),
        ),
        BoardDelta::ChangeCurrentPlayer(p) => Ok(BoardModel { current_player: p, ..b }),
        BoardDelta::PlayerDeclaredAction(_) => Ok(b),
        BoardDelta::ShuffleDeck(_) => Ok(b),
        BoardDelta::SetExpendAbilityUsed(p, i, v) => Ok(
            with_view_mat(
                b,
                p,
                MatModel {
                    field: b.mats[p as int].field.update(
                        i as int,
                        CardInField { expend_ability_used: v, ..b.mats[p as int].field[i as int] },
                    ),
                    ..b.mats[p as int]
                },
            ),
        ),
        BoardDelta::SetAllyAbilityUsed(p, i, v) => Ok(
            with_view_mat(
                b,
                p,
                MatModel {
                    field: b.mats[p as int].field.update(
                        i as int,
                        CardInField { ally_ability_used: v, ..b.mats[p as int].field[i as int] },
                    ),
                    ..b.mats[p as int]
                },
            ),
        ),
        BoardDelta::GameOver => Ok(BoardModel { game_over: true, ..b }),
    }
}

} // verus!

verus! {

impl Board {
    /// Advances this scoped view by one received delta; the view's only
    /// mutation path. A carried identity that disagrees with what is
    /// already known, or one missing where the viewer could see it, is
    /// rejected with the view unchanged.
    #[verifier::rlimit(100)]
    pub fn apply(&mut self, delta: BoardDelta) -> (r: Result<(), BoardDeltaError>)
        requires
            delta_in_range(old(self)@, delta),
        ensures
            (match apply_delta_model(old(self)@, delta) {
                Ok(b2) => r matches Ok(u) && final(self)@ == b2,
                Err(e) => r matches Err(e2) && e2 == e && final(self)@ == old(self)@,
            }),
    {
        let ghost b0 = self@;
        match delta {
            BoardDelta::Move(from, index, to, card) => {
                let removed: Option<Card> = match from {
                    Location::Hand(p) => if p == self.you {
                        Some(self.your_hand[index])
                    } else {
                        None
                    },
                    Location::Field(p) => Some(self.mats[p].field[index].card),
                    Location::Discard(p) => Some(self.mats[p].discard[index]),
                    Location::Shop => Some(self.shop[index]),
                    Location::FireGems => Some(Card::FireGem),
                    _ => None,
                };
                if matches!(from, Location::Sacrifice) {
                    return Err(BoardDeltaError::WrongSourceLocation);
                }
                if let Some(rc) = removed {
                    let mismatch = match card {
                        Some(c) => c != rc,
                        None => true,
                    };
                    if mismatch {
                        return Err(BoardDeltaError::CardMismatch(rc, card));
                    }
                }
                let dest_needs_card = match to {
                    Location::Hand(p) => p == self.you,
                    Location::Field(_) => true,
                    Location::Discard(_) => true,
                    Location::Sacrifice => true,
                    Location::Shop => true,
                    _ => false,
                };
                if dest_needs_card && card.is_none() {
                    return Err(BoardDeltaError::MissingCard(to));
                }
                if matches!(to, Location::FireGems) {
                    let gem_ok = match card {
                        Some(c) => c == Card::FireGem,
                        None => false,
                    };
                    if !gem_ok {
                        return Err(BoardDeltaError::CardMismatch(Card::FireGem, card));
                    }
                }
                match from {
                    Location::Deck(p) => {
                        let m = &mut self.mats[p];
                        m.deck = m.deck - 1;
                    },
                    Location::Hand(p) => {
                        {
                            let m = &mut self.mats[p];
                            m.hand = m.hand - 1;
                        }
                        if p == self.you {
                            self.your_hand.remove(index);
                        }
                    },
                    Location::Field(p) => {
                        let m = &mut self.mats[p];
                        m.field.remove(index);
                    },
                    Location::Discard(p) => {
                        let m = &mut self.mats[p];
                        m.discard.remove(index);
                    },
                    Location::Shop => {
                        self.shop.remove(index);
                    },
                    Location::Sacrifice => {},
                    Location::ShopDeck => {
                        self.shop_deck = self.shop_deck - 1;
                    },
                    Location::FireGems => {
                        self.gems = self.gems - 1;
                    },
                }
                let ghost b1 = self@;
                match to {
                    Location::Deck(p) => {
                        let m = &mut self.mats[p];
                        m.deck = m.deck + 1;
                    },
                    Location::Hand(p) => {
                        {
                            let m = &mut self.mats[p];
                            m.hand = m.hand + 1;
                        }
                        if p == self.you {
                            self.your_hand.push(card.unwrap());
                        }
                    },
                    Location::Field(p) => {
                        let m = &mut self.mats[p];
                        m.field.push(CardInField::new(card.unwrap()));
                    },
                    Location::Discard(p) => {
                        let m = &mut self.mats[p];
                        m.discard.push(card.unwrap());
                    },
                    Location::Sacrifice => {
                        self.sacrificed.push(card.unwrap());
                    },
                    Location::Shop => {
                        self.shop.push(card.unwrap());
                    },
                    Location::ShopDeck => {
                        self.shop_deck = self.shop_deck + 1;
                    },
                    Location::FireGems => {
                        self.gems = self.gems + 1;
                    },
                }
                proof {
                    assert(apply_delta_model(b0, delta) matches Ok(b2) && self@ =~~= b2);
                }
                Ok(())
            },
            BoardDelta::IncreaseHealth(p, x) => {
                {
                    let m = &mut self.mats[p];
                    m.lives = m.lives + x;
                }
                proof {
                    assert(apply_delta_model(b0, delta) matches Ok(b2) && self@ =~~= b2);
                }
                Ok(())
            },
            BoardDelta::DecreaseHealth(p, x) => {
                {
                    let m = &mut self.mats[p];
                    m.lives = m.lives.saturating_sub(x);
                }
                proof {
                    assert(apply_delta_model(b0, delta) matches Ok(b2) && self@ =~~= b2);
                }
                Ok(())
            },
            BoardDelta::IncreaseCombat(p, x) => {
                {
                    let m = &mut self.mats[p];
                    m.combat = m.combat + x;
                }
                proof {
                    assert(apply_delta_model(b0, delta) matches Ok(b2) && self@ =~~= b2);
                }
                Ok(())
            },
            BoardDelta::DecreaseCombat(p, x) => {
                {
                    let m = &mut self.mats[p];
                    m.combat = m.combat.saturating_sub(x);
                }
                proof {
                    assert(apply_delta_model(b0, delta) matches Ok(b2) && self@ =~~= b2);
                }
                Ok(())
            },
            BoardDelta::IncreaseGold(p, x) => {
                {
                    let m = &mut self.mats[p];
                    m.gold = m.gold + x;
                }
                proof {
                    assert(apply_delta_model(b0, delta) matches Ok(b2) && self@ =~~= b2);
                }
                Ok(())
            },
            BoardDelta::DecreaseGold(p, x) => {
                {
                    let m = &mut self.mats[p];
                    m.gold = m.gold.saturating_sub(x);
                }
                proof {
                    assert(apply_delta_model(b0, delta) matches Ok(b2) && self@ =~~= b2);
                }
                Ok(())
            },
            BoardDelta::IncreaseDiscardAmount(p, x) => {
                {
                    let m = &mut self.mats[p];
                    m.must_discard = m.must_discard + x;
                }
                proof {
                    assert(apply_delta_model(b0, delta) matches Ok(b2) && self@ =~~= b2);
                }
                Ok(())
            },
            BoardDelta::DecreaseDiscardAmount(p, x) => {
                {
                    let m = &mut self.mats[p];
                    m.must_discard = m.must_discard.saturating_sub(x);
                }
                proof {
                    assert(apply_delta_model(b0, delta) matches Ok(b2) && self@ =~~= b2);
                }
                Ok(())
            },
            BoardDelta::ChangeCurrentPlayer(p) => {
                self.current_player = p;
                proof {
                    assert(apply_delta_model(b0, delta) matches Ok(b2) && self@ =~~= b2);
                }
                Ok(())
            },
            BoardDelta::PlayerDeclaredAction(_) => {
                Ok(())
            },
            BoardDelta::ShuffleDeck(_) => {
                Ok(())
            },
            BoardDelta::SetExpendAbilityUsed(p, i, v) => {
                let mut cif = self.mats[p].field[i];
                cif.expend_ability_used = v;
                {
                    let m = &mut self.mats[p];
                    m.field.set(i, cif);
                }
                proof {
                    assert(apply_delta_model(b0, delta) matches Ok(b2) && self@ =~~= b2);
                }
                Ok(())
            },
            BoardDelta::SetAllyAbilityUsed(p, i, v) => {
                let mut cif = self.mats[p].field[i];
                cif.ally_ability_used = v;
                {
                    let m = &mut self.mats[p];
                    m.field.set(i, cif);
                }
                proof {
                    assert(apply_delta_model(b0, delta) matches Ok(b2) && self@ =~~= b2);
                }
                Ok(())
            },
            BoardDelta::GameOver => {
                self.game_over = true;
                proof {
                    assert(apply_delta_model(b0, delta) matches Ok(b2) && self@ =~~= b2);
                }
                Ok(())
            },
        }
    }
}

} // verus!
