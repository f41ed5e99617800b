use realms::api::{BoardDelta, Location, PlayerAction};
use realms::cards::{Card, Setup};
use realms::master::MasterBoard;
use realms::smallrng::SRng;
use realms::visibility::hide_card_info;

#[test]
fn same_seed_same_match() {
    let a = MasterBoard::new(2, &Setup::test(), SRng::new(42));
    let b = MasterBoard::new(2, &Setup::test(), SRng::new(42));
    assert_eq!(format!("{:?}", a), format!("{:?}", b));
}

#[test]
fn forked_streams_differ() {
    let mut rng = SRng::new(7);
    let a = rng.fork();
    let b = rng.fork();
    let mut va = vec![Card::Gold, Card::Dagger, Card::Ruby, Card::Spark, Card::FireGem];
    let mut vb = va.clone();
    let mut ra = a;
    let mut rb = b;
    ra.shuffle(&mut va);
    rb.shuffle(&mut vb);
    assert_ne!(format!("{:?}", va), format!("{:?}", vb));
}

#[test]
fn conservation_across_actions() {
    // the multiset of cards over every zone never changes
    let count_all = |s: &MasterBoard| -> usize {
        let mut n = s.shop.len() + s.shop_deck.len() + s.gems.len() + s.sacrificed.len();
        for m in s.mats.iter() {
            n += m.hand.len() + m.deck.len() + m.discard.len() + m.field.len();
        }
        n
    };
    let mut state = MasterBoard::new(2, &Setup::test(), SRng::new(0));
    let total = count_all(&state);
    state.do_action(PlayerAction::Play(0, vec![])).unwrap();
    assert_eq!(count_all(&state), total);
    state.do_action(PlayerAction::EndTurn).unwrap();
    assert_eq!(count_all(&state), total);
    state.do_action(PlayerAction::Play(0, vec![])).unwrap();
    assert_eq!(count_all(&state), total);
}

#[test]
fn turn_exclusivity_forced_discard() {
    // only Discard is accepted while a forced discard is owed
    let mut state = MasterBoard::new(2, &Setup::test(), SRng::new(0));
    // play the three starting cards, end turn; opponent plays a Spark
    // bought earlier is not possible here, so force the state by hand:
    let cp = state.current_player;
    state.mats[cp].must_discard = 1;
    state
        .do_action(PlayerAction::Play(0, vec![]))
        .expect_err("only a discard may be submitted while one is owed");
    state
        .do_action(PlayerAction::EndTurn)
        .expect_err("only a discard may be submitted while one is owed");
    state.do_action(PlayerAction::Discard(0)).unwrap();
    state.do_action(PlayerAction::Play(0, vec![])).unwrap();
}

#[test]
fn redaction_hides_only_concealed_ends() {
    let d = BoardDelta::Move(Location::Deck(0), 0, Location::Hand(0), Some(Card::Gold));
    // the owner sees their own draw, the opponent does not
    match hide_card_info(0, d.clone()) {
        BoardDelta::Move(_, _, _, card) => assert_eq!(card, Some(Card::Gold)),
        _ => panic!("unexpected delta"),
    }
    match hide_card_info(1, d) {
        BoardDelta::Move(_, _, _, card) => assert_eq!(card, None),
        _ => panic!("unexpected delta"),
    }
    // public ends stay visible to everyone
    let p = BoardDelta::Move(Location::Shop, 1, Location::Discard(0), Some(Card::Spark));
    match hide_card_info(1, p) {
        BoardDelta::Move(_, _, _, card) => assert_eq!(card, Some(Card::Spark)),
        _ => panic!("unexpected delta"),
    }
}

#[test]
fn catalog_has_behavior_for_small_setup() {
    // every card of the small setup has the ability its classification
    // demands
    let setup = Setup::test();
    for c in setup.shop_deck.iter().chain(setup.player_deck.iter()).chain(setup.gems.iter()) {
        if c.is_action() {
            assert!(c.primary_ability().is_some(), "{:?} lacks a primary ability", c);
        }
        if c.is_champion() {
            assert!(c.expend_ability().is_some(), "{:?} lacks an expend ability", c);
        }
    }
}

#[test]
fn gem_price_and_exhaustion() {
    let mut state = MasterBoard::new(2, &Setup::test(), SRng::new(0));
    let cp = state.current_player;
    state.mats[cp].gold = 100;
    state.gems = vec![Card::FireGem];
    state.do_action(PlayerAction::PurchaseFireGem).unwrap();
    assert_eq!(state.mats[cp].gold, 100 - 2);
    state
        .do_action(PlayerAction::PurchaseFireGem)
        .expect_err("the shared pool is exhausted");
}
