use vstd::prelude::*;
use vstd::pervasive::VecAdditionalExecFns;
use vstd::string::StringExecFns;
use crate::api::{Board, BoardDelta, EffectArgument, Location, Mat, PlayerAction};
use crate::cards::{Card, CardInField, Effect, EffectModel, Faction, PerAmount, Setup};
use crate::cards::{effect_model, effects_model, effects_model_index, effects_model_len};

use crate::smallrng::{drawn, lemma_shuffle_multiset, next_seed, spec_shuffle, SRng};

verus! {

broadcast use effects_model_len, effects_model_index;

/// The mathematical value of one player's authoritative mat.
#[verifier::ext_equal]
pub struct MasterMatModel {
    pub name: Seq<char>,
    pub field: Seq<CardInField>,
    pub hand: Seq<Card>,
    pub discard: Seq<Card>,
    pub deck: Seq<Card>,
    pub lives: usize,
    pub combat: usize,
    pub gold: usize,
    pub must_discard: usize,
    pub next_action_purchase_to_top_of_deck: usize,
    pub next_purchase_to_top_of_deck: usize,
    pub next_purchase_to_hand: usize,
}

/// The mathematical value of the authoritative board.
#[verifier::ext_equal]
pub struct MasterBoardModel {
    pub shop: Seq<Card>,
    pub shop_deck: Seq<Card>,
    pub gems: Seq<Card>,
    pub sacrificed: Seq<Card>,
    pub current_player: usize,
    pub players: usize,
    pub game_over: bool,
    pub mats: Seq<MasterMatModel>,
    pub seed: u64,
}

/// One player's authoritative mat: full card identities in every zone.
#[derive(Debug)]
pub struct MasterMat {
    pub name: String,
    pub field: Vec<CardInField>,
    pub hand: Vec<Card>,
    pub discard: Vec<Card>,
    pub deck: Vec<Card>,
    pub lives: usize,
    pub combat: usize,
    pub gold: usize,
    pub must_discard: usize,
    pub next_action_purchase_to_top_of_deck: usize,
    pub next_purchase_to_top_of_deck: usize,
    pub next_purchase_to_hand: usize,
}

/// The authoritative board: the single source of truth for a match.
#[derive(Debug)]
pub struct MasterBoard {
    pub shop: Vec<Card>,
    pub shop_deck: Vec<Card>,
    pub gems: Vec<Card>,
    pub sacrificed: Vec<Card>,
    pub current_player: usize,
    pub players: usize,
    pub game_over: bool,
    pub mats: Vec<MasterMat>,
    pub rng: SRng,
}

impl View for MasterMat {
    type V = MasterMatModel;

    open spec fn view(&self) -> MasterMatModel {
        MasterMatModel {
            name: self.name@,
            field: self.field@,
            hand: self.hand@,
            discard: self.discard@,
            deck: self.deck@,
            lives: self.lives,
            combat: self.combat,
            gold: self.gold,
            must_discard: self.must_discard,
            next_action_purchase_to_top_of_deck: self.next_action_purchase_to_top_of_deck,
            next_purchase_to_top_of_deck: self.next_purchase_to_top_of_deck,
            next_purchase_to_hand: self.next_purchase_to_hand,
        }
    }
}

impl View for MasterBoard {
    type V = MasterBoardModel;

    open spec fn view(&self) -> MasterBoardModel {
        MasterBoardModel {
            shop: self.shop@,
            shop_deck: self.shop_deck@,
            gems: self.gems@,
            sacrificed: self.sacrificed@,
            current_player: self.current_player,
            players: self.players,
            game_over: self.game_over,
            mats: self.mats@.map_values(|m: MasterMat| m@),
            seed: self.rng.spec_seed(),
        }
    }
}

/// Cards in a mat, over all four of its zones.
pub open spec fn mat_card_count(m: MasterMatModel) -> nat {
    m.hand.len() + m.discard.len() + m.deck.len() + m.field.len()
}

/// Cards across a roster of mats.
pub open spec fn mats_card_count(mats: Seq<MasterMatModel>) -> nat
    decreases mats,
{
    if mats.len() == 0 {
        0
    } else {
        mats_card_count(mats.drop_last()) + mat_card_count(mats.last())
    }
}

/// Cards across the whole board, every zone included.
pub open spec fn total_card_count(m: MasterBoardModel) -> nat {
    m.shop.len() + m.shop_deck.len() + m.gems.len() + m.sacrificed.len() + mats_card_count(m.mats)
}

/// Well-formedness of an authoritative board: the roster matches the
/// player count, the current player exists, and the board is small
/// enough that every zone stays within shuffling range.
pub open spec fn wf(m: MasterBoardModel) -> bool {
    &&& m.mats.len() == m.players
    &&& 1 <= m.players
    &&& m.current_player < m.players
    &&& total_card_count(m) <= u32::MAX
}

/// Any one mat holds at most as many cards as the whole roster.
pub proof fn lemma_mat_count_le(mats: Seq<MasterMatModel>, i: int)
    requires
        0 <= i < mats.len(),
    ensures
        mat_card_count(mats[i]) <= mats_card_count(mats),
    decreases mats.len(),
{
    if i < mats.len() - 1 {
        assert(mats.drop_last()[i] == mats[i]);
        lemma_mat_count_le(mats.drop_last(), i);
    }
}

/// A roster where one mat is replaced counts the difference of that one
/// mat alone.
pub proof fn lemma_mats_count_update(mats: Seq<MasterMatModel>, i: int, m: MasterMatModel)
    requires
        0 <= i < mats.len(),
    ensures
        mats_card_count(mats.update(i, m)) + mat_card_count(mats[i]) == mats_card_count(mats)
            + mat_card_count(m),
    decreases mats.len(),
{
    let u = mats.update(i, m);
    if i == mats.len() - 1 {
        assert(u.drop_last() =~= mats.drop_last());
        assert(u.last() == m);
    } else {
        assert(u.drop_last() =~= mats.drop_last().update(i, m));
        assert(u.last() == mats.last());
        lemma_mats_count_update(mats.drop_last(), i, m);
    }
}

/// Takes `amount` cards off the top of a pile (its end) in one block.
pub fn draw(amount: usize, source: &mut Vec<Card>) -> (r: Vec<Card>)
    requires
        amount <= old(source).len(),
    ensures
        final(source)@ == old(source)@.subrange(0, old(source)@.len() - amount),
        r@ == old(source)@.subrange(
            old(source)@.len() - amount,
            old(source)@.len() as int,
        ),
{
    let at = source.len() - amount;
    source.split_off(at)
}

/// An exact copy of a card pile.
pub(crate) fn clone_cards(v: &Vec<Card>) -> (r: Vec<Card>)
    ensures
        r@ == v@,
{
    let mut r: Vec<Card> = Vec::new();
    let mut i: usize = 0;
    while i < v.len()
        invariant
            i <= v.len(),
            r@ == v@.subrange(0, i as int),
        decreases v.len() - i,
    {
        r.push(v[i]);
        i = i + 1;
        proof {
            assert(r@ =~= v@.subrange(0, i as int));
        }
    }
    proof {
        assert(r@ =~= v@);
    }
    r
}

/// An exact copy of a battlefield.
pub(crate) fn clone_cifs(v: &Vec<CardInField>) -> (r: Vec<CardInField>)
    ensures
        r@ == v@,
{
    let mut r: Vec<CardInField> = Vec::new();
    let mut i: usize = 0;
    while i < v.len()
        invariant
            i <= v.len(),
            r@ == v@.subrange(0, i as int),
        decreases v.len() - i,
    {
        r.push(v[i]);
        i = i + 1;
        proof {
            assert(r@ =~= v@.subrange(0, i as int));
        }
    }
    proof {
        assert(r@ =~= v@);
    }
    r
}

impl Clone for MasterMat {
    /// A value copy; the mathematical view is identical.
    fn clone(&self) -> (r: Self)
        ensures
            r@ == self@,
    {
        MasterMat {
            name: self.name.clone(),
            field: clone_cifs(&self.field),
            hand: clone_cards(&self.hand),
            discard: clone_cards(&self.discard),
            deck: clone_cards(&self.deck),
            lives: self.lives,
            combat: self.combat,
            gold: self.gold,
            must_discard: self.must_discard,
            next_action_purchase_to_top_of_deck: self.next_action_purchase_to_top_of_deck,
            next_purchase_to_top_of_deck: self.next_purchase_to_top_of_deck,
            next_purchase_to_hand: self.next_purchase_to_hand,
        }
    }
}

/// An exact copy of a roster of mats.
fn clone_mats(v: &Vec<MasterMat>) -> (r: Vec<MasterMat>)
    ensures
        r@.map_values(|m: MasterMat| m@) == v@.map_values(|m: MasterMat| m@),
{
    let mut r: Vec<MasterMat> = Vec::new();
    let mut i: usize = 0;
    while i < v.len()
        invariant
            i <= v.len(),
            r@.len() == i,
            forall|k: int| 0 <= k < i ==> #[trigger] r@[k]@ == v@[k]@,
        decreases v.len() - i,
    {
        let m = (&v[i]).clone();
        r.push(m);
        i = i + 1;
    }
    proof {
        assert(r@.map_values(|m: MasterMat| m@) =~= v@.map_values(|m: MasterMat| m@));
    }
    r
}

impl Clone for MasterBoard {
    /// A value copy; the mathematical view is identical. Used by the
    /// action machinery to work on a disposable copy and commit it only
    /// on full success.
    fn clone(&self) -> (r: Self)
        ensures
            r@ == self@,
    {
        let r = MasterBoard {
            shop: clone_cards(&self.shop),
            shop_deck: clone_cards(&self.shop_deck),
            gems: clone_cards(&self.gems),
            sacrificed: clone_cards(&self.sacrificed),
            current_player: self.current_player,
            players: self.players,
            game_over: self.game_over,
            mats: clone_mats(&self.mats),
            rng: self.rng.clone(),
        };
        proof {
            assert(r@ =~= self@);
        }
        r
    }
}

/// The decimal digit character for a value below ten.
pub open spec fn spec_digit(d: nat) -> char {
    if d == 0 {
        '0'
    } else if d == 1 {
        '1'
    } else if d == 2 {
        '2'
    } else if d == 3 {
        '3'
    } else if d == 4 {
        '4'
    } else if d == 5 {
        '5'
    } else if d == 6 {
        '6'
    } else if d == 7 {
        '7'
    } else if d == 8 {
        '8'
    } else {
        '9'
    }
}

/// The decimal rendering of a number.
pub open spec fn spec_decimal(n: nat) -> Seq<char>
    decreases n,
{
    if n < 10 {
        seq![spec_digit(n)]
    } else {
        spec_decimal(n / 10).push(spec_digit(n % 10))
    }
}

/// The display name a player gets from their one-based position.
pub open spec fn spec_player_name(i: nat) -> Seq<char> {
    "Player "@ + spec_decimal(i + 1)
}

fn digit_str(d: usize) -> (s: &'static str)
    requires
        d < 10,
    ensures
        s@ == seq![spec_digit(d as nat)],
{
    let s = match d {
        0 => "0",
        1 => "1",
        2 => "2",
        3 => "3",
        4 => "4",
        5 => "5",
        6 => "6",
        7 => "7",
        8 => "8",
        _ => "9",
    };
    proof {
        reveal_strlit("0");
        reveal_strlit("1");
        reveal_strlit("2");
        reveal_strlit("3");
        reveal_strlit("4");
        reveal_strlit("5");
        reveal_strlit("6");
        reveal_strlit("7");
        reveal_strlit("8");
        reveal_strlit("9");
        assert(s@ =~= seq![spec_digit(d as nat)]);
    }
    s
}

fn decimal_string(n: usize) -> (s: String)
    ensures
        s@ == spec_decimal(n as nat),
    decreases n,
{
    if n < 10 {
        String::from_str(digit_str(n))
    } else {
        let mut s = decimal_string(n / 10);
        s.append(digit_str(n % 10));
        proof {
            assert(s@ =~= spec_decimal(n as nat));
        }
        s
    }
}

fn player_name(i: usize) -> (s: String)
    requires
        i < usize::MAX,
    ensures
        s@ == spec_player_name(i as nat),
{
    let mut s = String::from_str("Player ");
    let d = decimal_string(i + 1);
    s.append(d.as_str());
    s
}

/// The mat a player starts with: a shuffled copy of the common starting
/// deck, the top of it already drawn as the opening hand.
pub open spec fn spec_new_mat(
    name: Seq<char>,
    starting_cards: usize,
    player_deck: Seq<Card>,
    seed: u64,
) -> MasterMatModel {
    let sh = spec_shuffle(player_deck, seed);
    MasterMatModel {
        name: name,
        field: seq![],
        hand: sh.0.subrange(sh.0.len() - starting_cards, sh.0.len() as int),
        discard: seq![],
        deck: sh.0.subrange(0, sh.0.len() - starting_cards),
        lives: 50,
        combat: 0,
        gold: 0,
        must_discard: 0,
        next_action_purchase_to_top_of_deck: 0,
        next_purchase_to_top_of_deck: 0,
        next_purchase_to_hand: 0,
    }
}

impl MasterMat {
    /// A player's starting mat.
    pub fn new(name: String, starting_cards: usize, setup: &Setup, rng: SRng) -> (r: MasterMat)
        requires
            starting_cards <= setup.player_deck@.len(),
            setup.player_deck@.len() <= u32::MAX,
        ensures
            r@ == spec_new_mat(name@, starting_cards, setup.player_deck@, rng.spec_seed()),
    {
        let mut rng = rng;
        let mut deck = clone_cards(&setup.player_deck);
        rng.shuffle(&mut deck);
        let hand = draw(starting_cards, &mut deck);
        MasterMat {
            name,
            field: Vec::new(),
            hand,
            discard: Vec::new(),
            deck,
            lives: 50,
            combat: 0,
            gold: 0,
            must_discard: 0,
            next_action_purchase_to_top_of_deck: 0,
            next_purchase_to_top_of_deck: 0,
            next_purchase_to_hand: 0,
        }
    }

    /// Whether the player is still in the match.
    pub fn is_alive(&self) -> (r: bool)
        ensures
            r == (self@.lives > 0),
    {
        self.lives > 0
    }
}

/// The seed a source holds after `n` whole draw cycles.
pub open spec fn nth_next_seed(seed: u64, n: nat) -> u64
    decreases n,
{
    if n == 0 {
        seed
    } else {
        next_seed(nth_next_seed(seed, (n - 1) as nat))
    }
}

/// The opening hand size by seat: the starting player gets three cards,
/// their successor four when more than two play, everyone else five.
pub open spec fn spec_starting_cards(i: usize, current: usize, players: usize) -> usize {
    if i == current {
        3
    } else if players > 2 && i == current + 1 {
        4
    } else {
        5
    }
}

/// The board a match starts from: shop pile shuffled and six cards
/// revealed, a starting player drawn, and every mat dealt from its own
/// forked random stream.
pub open spec fn spec_new_board(
    players: usize,
    shop_deck0: Seq<Card>,
    gems0: Seq<Card>,
    player_deck0: Seq<Card>,
    seed: u64,
) -> MasterBoardModel {
    let sh = spec_shuffle(shop_deck0, seed);
    let shop = sh.0.subrange(sh.0.len() - 6, sh.0.len() as int);
    let rest = sh.0.subrange(0, sh.0.len() - 6);
    let current = (drawn(sh.1) as usize) % players;
    let s_forks = next_seed(sh.1);
    MasterBoardModel {
        shop: shop,
        shop_deck: rest,
        gems: gems0,
        sacrificed: seq![],
        current_player: current,
        players: players,
        game_over: false,
        mats: Seq::new(
            players as nat,
            |i: int|
                spec_new_mat(
                    spec_player_name(i as nat),
                    spec_starting_cards(i as usize, current, players),
                    player_deck0,
                    drawn(nth_next_seed(s_forks, i as nat)),
                ),
        ),
        seed: nth_next_seed(s_forks, players as nat),
    }
}

impl MasterBoard {
    /// A fresh match.
    pub fn new(players: usize, setup: &Setup, rng: SRng) -> (r: MasterBoard)
        requires
            1 <= players,
            players < usize::MAX,
            6 <= setup.shop_deck@.len(),
            5 <= setup.player_deck@.len(),
            setup.player_deck@.len() <= u32::MAX,
            setup.shop_deck@.len() + setup.gems@.len() + players * setup.player_deck@.len()
                <= u32::MAX,
        ensures
            r@ == spec_new_board(
                players,
                setup.shop_deck@,
                setup.gems@,
                setup.player_deck@,
                rng.spec_seed(),
            ),
            wf(r@),
    {
        let ghost seed0 = rng.spec_seed();
        let ghost model = spec_new_board(
            players,
            setup.shop_deck@,
            setup.gems@,
            setup.player_deck@,
            seed0,
        );
        let mut rng = rng;
        let mut shop_deck = clone_cards(&setup.shop_deck);
        rng.shuffle(&mut shop_deck);
        let shop = draw(6, &mut shop_deck);
        let current_player = rng.gen_usize() % players;
        let ghost s_forks = rng.spec_seed();
        let mut mats: Vec<MasterMat> = Vec::new();
        let mut i: usize = 0;
        while i < players
            invariant
                i <= players,
                mats@.len() == i,
                rng.spec_seed() == nth_next_seed(s_forks, i as nat),
                forall|k: int| 0 <= k < i ==> #[trigger] mats@[k]@ == model.mats[k],
            decreases players - i,
        {
            let starting_cards = if i == current_player {
                3
            } else if players > 2 && i == current_player + 1 {
                4
            } else {
                5
            };
            let child = rng.fork();
            let mat = MasterMat::new(player_name(i), starting_cards, &setup, child);
            mats.push(mat);
            i = i + 1;
        }
        let r = MasterBoard {
            shop,
            players,
            shop_deck,
            gems: clone_cards(&setup.gems),
            sacrificed: Vec::new(),
            current_player,
            game_over: false,
            mats,
            rng,
        };
        proof {
            assert(r@.mats =~= model.mats);
            assert(r@ =~= model);
            assert forall|k: int| 0 <= k < model.mats.len() implies mat_card_count(
                #[trigger] model.mats[k],
            ) == setup.player_deck@.len() by {
                let cseed = drawn(nth_next_seed(s_forks, k as nat));
                crate::smallrng::lemma_shuffle_multiset(setup.player_deck@, cseed);
            }
            lemma_new_board_count(
                model.mats,
                setup.player_deck@.len() as int,
                spec_shuffle(setup.shop_deck@, seed0).0.len() as int,
            );
            assert(wf(r@));
        }
        r
    }
}

/// A roster of freshly dealt mats holds exactly one starting deck of
/// cards per player.
proof fn lemma_new_board_count(mats: Seq<MasterMatModel>, deck_len: int, shop_len: int)
    requires
        forall|k: int| 0 <= k < mats.len() ==> mat_card_count(#[trigger] mats[k]) == deck_len,
        deck_len >= 0,
    ensures
        mats_card_count(mats) == mats.len() * deck_len,
    decreases mats.len(),
{
    if mats.len() > 0 {
        lemma_new_board_count(mats.drop_last(), deck_len, shop_len);
        assert((mats.len() - 1) * deck_len + deck_len == mats.len() * deck_len) by (nonlinear_arith);
    }
}

/// The projection of a mat for a viewer: hand and deck reduced to
/// counts, public zones kept whole.
pub open spec fn scoped_mat_model(m: MasterMatModel) -> crate::api::MatModel {
    crate::api::MatModel {
        field: m.field,
        hand: m.hand.len() as usize,
        name: m.name,
        discard: m.discard,
        deck: m.deck.len() as usize,
        lives: m.lives,
        combat: m.combat,
        gold: m.gold,
        must_discard: m.must_discard,
    }
}

/// The projection of the whole board for one viewer: their own hand is
/// kept, every concealed pile becomes a count.
pub open spec fn scoped_model(m: MasterBoardModel, player: usize) -> crate::api::BoardModel {
    crate::api::BoardModel {
        shop: m.shop,
        shop_deck: m.shop_deck.len() as usize,
        gems: m.gems.len() as usize,
        sacrificed: m.sacrificed,
        current_player: m.current_player,
        players: m.players,
        mats: m.mats.map_values(|x: MasterMatModel| scoped_mat_model(x)),
        you: player,
        your_hand: m.mats[player as int].hand,
        game_over: m.game_over,
    }
}

impl MasterBoard {
    /// The point-in-time view that bootstraps a viewer.
    pub fn scoped_to(&self, player: usize) -> (r: Board)
        requires
            player < self@.mats.len(),
        ensures
            r@ == scoped_model(self@, player),
    {
        let mut mats: Vec<Mat> = Vec::new();
        let mut i: usize = 0;
        while i < self.mats.len()
            invariant
                i <= self.mats.len(),
                mats@.len() == i,
                forall|k: int| 0 <= k < i ==> #[trigger] mats@[k]@ == scoped_mat_model(
                    self@.mats[k],
                ),
            decreases self.mats.len() - i,
        {
            let m = &self.mats[i];
            let sm = Mat {
                field: clone_cifs(&m.field),
                hand: m.hand.len(),
                name: m.name.clone(),
                discard: clone_cards(&m.discard),
                deck: m.deck.len(),
                lives: m.lives,
                combat: m.combat,
                gold: m.gold,
                must_discard: m.must_discard,
            };
            mats.push(sm);
            i = i + 1;
        }
        let r = Board {
            shop: clone_cards(&self.shop),
            shop_deck: self.shop_deck.len(),
            gems: self.gems.len(),
            sacrificed: clone_cards(&self.sacrificed),
            current_player: self.current_player,
            players: self.players,
            mats,
            you: player,
            your_hand: clone_cards(&self.mats[player].hand),
            game_over: self.game_over,
        };
        proof {
            assert(r@.mats =~= scoped_model(self@, player).mats);
            assert(r@ =~= scoped_model(self@, player));
        }
        r
    }
}

} // verus!

verus! {

/// Saturating multiplication, as battlefield-scaled amounts use it.
pub open spec fn sat_mul(a: usize, b: usize) -> usize {
    if a * b > usize::MAX {
        usize::MAX
    } else {
        (a * b) as usize
    }
}

/// The board with one mat replaced.
pub open spec fn with_mat(m: MasterBoardModel, p: usize, mat: MasterMatModel) -> MasterBoardModel {
    MasterBoardModel { mats: m.mats.update(p as int, mat), ..m }
}

/// The acting player's mat.
pub open spec fn cur_mat(m: MasterBoardModel) -> MasterMatModel {
    m.mats[m.current_player as int]
}

/// Whether a battlefield card is counted for the given scaling rule.
pub open spec fn per_matches(c: Card, per: PerAmount) -> bool {
    match per {
        PerAmount::Champion => c.spec_is_champion(),
        PerAmount::AdditionalChampion => c.spec_is_champion(),
        PerAmount::AdditionalFactionCard(f) => c.spec_faction() == f,
        PerAmount::AdditionalGuardian => c.spec_is_guard(),
    }
}

/// How many battlefield cards the scaling rule counts.
pub open spec fn count_matching(field: Seq<CardInField>, per: PerAmount) -> nat
    decreases field,
{
    if field.len() == 0 {
        0
    } else {
        count_matching(field.drop_last(), per) + if per_matches(field.last().card, per) {
            1nat
        } else {
            0nat
        }
    }
}

/// The multiplier of a scaled effect: the matching-card count, less one
/// for the "additional" rules (the granting card does not count itself;
/// clamped at zero when nothing matches).
pub open spec fn spec_times(field: Seq<CardInField>, per: PerAmount) -> usize {
    let sub: nat = if per is Champion {
        0nat
    } else {
        1nat
    };
    let c = count_matching(field, per);
    if c >= sub && c - sub <= usize::MAX {
        (c - sub) as usize
    } else if c < sub {
        0
    } else {
        usize::MAX
    }
}

/// The size of an instruction, counting what composites can expand to;
/// the interpreter's work strictly shrinks by this measure.
pub open spec fn effect_size(e: EffectModel) -> nat
    decreases e,
{
    match e {
        EffectModel::Choice(a, b) => 1 + effects_size(a) + effects_size(b),
        EffectModel::CombatPer(_, _) => 2,
        EffectModel::HealPer(_, _) => 2,
        _ => 1,
    }
}

/// The summed size of a work list.
pub open spec fn effects_size(s: Seq<EffectModel>) -> nat
    decreases s,
{
    if s.len() == 0 {
        0
    } else {
        effects_size(s.drop_last()) + effect_size(s.last())
    }
}

/// Every instruction has positive size.
pub proof fn effect_size_pos(e: EffectModel)
    ensures
        effect_size(e) >= 1,
{
}

pub proof fn effects_size_push(s: Seq<EffectModel>, e: EffectModel)
    ensures
        effects_size(s.push(e)) == effects_size(s) + effect_size(e),
{
    assert(s.push(e).drop_last() =~= s);
    assert(s.push(e).last() == e);
}

pub proof fn effects_size_append(s: Seq<EffectModel>, t: Seq<EffectModel>)
    ensures
        effects_size(s + t) == effects_size(s) + effects_size(t),
    decreases t.len(),
{
    if t.len() == 0 {
        assert(s + t =~= s);
    } else {
        assert((s + t).drop_last() =~= s + t.drop_last());
        effects_size_append(s, t.drop_last());
    }
}

pub proof fn effects_size_reverse(s: Seq<EffectModel>)
    ensures
        effects_size(s.reverse()) == effects_size(s),
    decreases s.len(),
{
    if s.len() > 0 {
        let t = s.drop_first();
        effects_size_reverse(t);
        assert(s.reverse() =~= t.reverse().push(s.first()));
        effects_size_push(t.reverse(), s.first());
        assert(s =~= seq![s.first()] + t);
        effects_size_append(seq![s.first()], t);
        assert(effects_size(seq![s.first()]) == effect_size(s.first())) by {
            let one = seq![s.first()];
            assert(one.drop_last() =~= Seq::<EffectModel>::empty());
            assert(effects_size(one) == effects_size(one.drop_last()) + effect_size(one.last()));
            assert(effects_size(Seq::<EffectModel>::empty()) == 0);
        }
    }
}

/// The pending amount when the work list's top is an unfinished
/// multi-card instruction; second component of the termination measure.
pub open spec fn head_amount(work: Seq<EffectModel>) -> nat {
    if work.len() == 0 {
        0
    } else {
        match work.last() {
            EffectModel::Sacrifice(n) => n as nat,
            EffectModel::Draw(n) => n as nat,
            _ => 0,
        }
    }
}

/// Prefixes deltas onto an interpreter outcome.
pub open spec fn interp_prepend(
    ds: Seq<BoardDelta>,
    r: Result<(MasterBoardModel, Seq<BoardDelta>), &'static str>,
) -> Result<(MasterBoardModel, Seq<BoardDelta>), &'static str> {
    match r {
        Ok((m, ds2)) => Ok((m, ds + ds2)),
        Err(e) => Err(e),
    }
}

pub proof fn interp_prepend_assoc(
    a: Seq<BoardDelta>,
    b: Seq<BoardDelta>,
    r: Result<(MasterBoardModel, Seq<BoardDelta>), &'static str>,
)
    ensures
        interp_prepend(a, interp_prepend(b, r)) == interp_prepend(a + b, r),
{
    match r {
        Ok((m, ds2)) => {
            assert(a + (b + ds2) =~= (a + b) + ds2);
        },
        Err(_) => {},
    }
}

/// One card drawn into a hand, replenishing and reshuffling the deck
/// from the discard pile first when the deck is empty. Yields the mat,
/// the seed left behind, and the deltas recording it.
pub open spec fn draw_one(mat: MasterMatModel, seed: u64, p: usize) -> (
    MasterMatModel,
    u64,
    Seq<BoardDelta>,
) {
    let refill = mat.deck.len() == 0 && mat.discard.len() > 0;
    let sh = spec_shuffle(mat.discard, seed);
    let mat1 = if refill {
        MasterMatModel { deck: sh.0, discard: seq![], ..mat }
    } else {
        mat
    };
    let seed1 = if refill {
        sh.1
    } else {
        seed
    };
    let ds1 = if refill {
        reshuffle_deltas(mat.discard, p)
    } else {
        seq![]
    };
    if mat1.deck.len() > 0 {
        let card = mat1.deck.last();
        (
            MasterMatModel { deck: mat1.deck.drop_last(), hand: mat1.hand.push(card), ..mat1 },
            seed1,
            ds1.push(BoardDelta::Move(Location::Deck(p), 0, Location::Hand(p), Some(card))),
        )
    } else {
        (mat1, seed1, ds1)
    }
}

/// The deltas of replenishing a deck: one move per discard card in
/// order, then the reshuffle marker.
pub open spec fn reshuffle_deltas(discard: Seq<Card>, p: usize) -> Seq<BoardDelta> {
    Seq::new(
        discard.len(),
        |i: int| BoardDelta::Move(Location::Discard(p), 0, Location::Deck(p), Some(discard[i])),
    ).push(BoardDelta::ShuffleDeck(p))
}

/// The effect interpreter: runs a work list of instructions (top at the
/// end) against the board, consuming arguments in resolution order, and
/// yields the new board and the ordered deltas, or the error that
/// aborts the whole batch.
pub open spec fn interp(
    m: MasterBoardModel,
    work: Seq<EffectModel>,
    args: Seq<EffectArgument>,
) -> Result<(MasterBoardModel, Seq<BoardDelta>), &'static str>
    decreases effects_size(work), head_amount(work),
        via interp_decreases
{
    if work.len() == 0 {
        Ok((m, seq![]))
    } else {
        let e = work.last();
        let rest = work.drop_last();
        let cp = m.current_player;
        let mat = cur_mat(m);
        match e {
            EffectModel::Gold(x) => interp_prepend(
                seq![BoardDelta::IncreaseGold(cp, x)],
                interp(
                    with_mat(m, cp, MasterMatModel { gold: mat.gold.saturating_add(x), ..mat }),
                    rest,
                    args,
                ),
            ),
            EffectModel::Combat(x) => interp_prepend(
                seq![BoardDelta::IncreaseCombat(cp, x)],
                interp(
                    with_mat(m, cp, MasterMatModel { combat: mat.combat.saturating_add(x), ..mat }),
                    rest,
                    args,
                ),
            ),
            EffectModel::Heal(x) => interp_prepend(
                seq![BoardDelta::IncreaseHealth(cp, x)],
                interp(
                    with_mat(m, cp, MasterMatModel { lives: mat.lives.saturating_add(x), ..mat }),
                    rest,
                    args,
                ),
            ),
            EffectModel::Nothing => interp(m, rest, args),
            EffectModel::Draw(x) => {
                if x == 0 {
                    interp(m, rest, args)
                } else {
                    let d = draw_one(mat, m.seed, cp);
                    let m1 = MasterBoardModel {
                        mats: m.mats.update(cp as int, d.0),
                        seed: d.1,
                        ..m
                    };
                    interp_prepend(
                        d.2,
                        interp(m1, rest.push(EffectModel::Draw((x - 1) as usize)), args),
                    )
                }
            },
            EffectModel::OpponentDiscards(x) => {
                if args.len() == 0 || !(args.last() is Opponent) {
                    Err("Wrong arguments, expected opponent")
                } else {
                    let o = args.last()->Opponent_0;
                    if o >= m.players {
                        Err("No such player")
                    } else {
                        let omat = m.mats[o as int];
                        interp_prepend(
                            seq![BoardDelta::IncreaseDiscardAmount(o, x)],
                            interp(
                                with_mat(
                                    m,
                                    o,
                                    MasterMatModel {
                                        must_discard: omat.must_discard.saturating_add(x),
                                        ..omat
                                    },
                                ),
                                rest,
                                args.drop_last(),
                            ),
                        )
                    }
                }
            },
            EffectModel::PlayerDiscards(x) => interp_prepend(
                seq![BoardDelta::IncreaseDiscardAmount(cp, x)],
                interp(
                    with_mat(
                        m,
                        cp,
                        MasterMatModel { must_discard: mat.must_discard.saturating_add(x), ..mat },
                    ),
                    rest,
                    args,
                ),
            ),
            EffectModel::Choice(first, second) => {
                if args.len() > 0 && args.last() is ChooseFirst {
                    interp(m, rest + first.reverse(), args.drop_last())
                } else if args.len() > 0 && args.last() is ChooseSecond {
                    interp(m, rest + second.reverse(), args.drop_last())
                } else {
                    Err("Wrong arguments, expected choice")
                }
            },
            EffectModel::Sacrifice(amount) => {
                if amount == 0 {
                    interp(m, rest, args)
                } else if args.len() > 0 && args.last() is CardInHand {
                    let i = args.last()->CardInHand_0;
                    if i >= mat.hand.len() {
                        Err("No such card in hand")
                    } else {
                        let card = mat.hand[i as int];
                        let m1 = MasterBoardModel {
                            mats: m.mats.update(
                                cp as int,
                                MasterMatModel { hand: mat.hand.remove(i as int), ..mat },
                            ),
                            sacrificed: m.sacrificed.push(card),
                            ..m
                        };
                        interp_prepend(
                            seq![
                                BoardDelta::Move(
                                    Location::Hand(cp),
                                    i,
                                    Location::Sacrifice,
                                    Some(card),
                                ),
                            ],
                            interp(
                                m1,
                                rest.push(EffectModel::Sacrifice((amount - 1) as usize)),
                                args.drop_last(),
                            ),
                        )
                    }
                } else if args.len() > 0 && args.last() is CardInDiscard {
                    let i = args.last()->CardInDiscard_0;
                    if i >= mat.discard.len() {
                        Err("No such card in discard")
                    } else {
                        let card = mat.discard[i as int];
                        let m1 = MasterBoardModel {
                            mats: m.mats.update(
                                cp as int,
                                MasterMatModel { discard: mat.discard.remove(i as int), ..mat },
                            ),
                            sacrificed: m.sacrificed.push(card),
                            ..m
                        };
                        interp_prepend(
                            seq![
                                BoardDelta::Move(
                                    Location::Discard(cp),
                                    i,
                                    Location::Sacrifice,
                                    Some(card),
                                ),
                            ],
                            interp(
                                m1,
                                rest.push(EffectModel::Sacrifice((amount - 1) as usize)),
                                args.drop_last(),
                            ),
                        )
                    }
                } else {
                    Err("Wrong arguments, expected card in hand or discard")
                }
            },
            EffectModel::HealPer(x, per) => interp(
                m,
                rest.push(EffectModel::Heal(sat_mul(x, spec_times(mat.field, per)))),
                args,
            ),
            EffectModel::CombatPer(x, per) => interp(
                m,
                rest.push(EffectModel::Combat(sat_mul(x, spec_times(mat.field, per)))),
                args,
            ),
            EffectModel::NextActionPurchaseToTopOfDeck => interp(
                with_mat(
                    m,
                    cp,
                    MasterMatModel {
                        next_action_purchase_to_top_of_deck:
                            mat.next_action_purchase_to_top_of_deck.saturating_add(1),
                        ..mat
                    },
                ),
                rest,
                args,
            ),
            EffectModel::PrepareChampion => {
                if args.len() > 0 && args.last() is Champion && args.last()->Champion_0 == cp {
                    let id = args.last()->Champion_1;
                    if id >= mat.field.len() {
                        Err("No such card in field")
                    } else if !mat.field[id as int].card.spec_is_champion() {
                        Err("Target card is not a champion")
                    } else {
                        let cif = mat.field[id as int];
                        interp_prepend(
                            seq![BoardDelta::SetExpendAbilityUsed(cp, id, false)],
                            interp(
                                with_mat(
                                    m,
                                    cp,
                                    MasterMatModel {
                                        field: mat.field.update(
                                            id as int,
                                            CardInField { expend_ability_used: false, ..cif },
                                        ),
                                        ..mat
                                    },
                                ),
                                rest,
                                args.drop_last(),
                            ),
                        )
                    }
                } else {
                    Err("Wrong arguments, expected player champion")
                }
            },
            EffectModel::StunChampion => {
                if args.len() > 0 && args.last() is Champion && args.last()->Champion_0 != cp {
                    let p = args.last()->Champion_0;
                    let id = args.last()->Champion_1;
                    if p >= m.players {
                        Err("No such player")
                    } else if id >= m.mats[p as int].field.len() {
                        Err("No such champion")
                    } else if !m.mats[p as int].field[id as int].card.spec_is_champion() {
                        Err("Target card is not a champion")
                    } else {
                        let pmat = m.mats[p as int];
                        let card = pmat.field[id as int].card;
                        interp_prepend(
                            seq![
                                BoardDelta::Move(
                                    Location::Field(p),
                                    id,
                                    Location::Discard(p),
                                    Some(card),
                                ),
                            ],
                            interp(
                                with_mat(
                                    m,
                                    p,
                                    MasterMatModel {
                                        field: pmat.field.remove(id as int),
                                        discard: pmat.discard.push(card),
                                        ..pmat
                                    },
                                ),
                                rest,
                                args.drop_last(),
                            ),
                        )
                    }
                } else {
                    Err("Wrong arguments, expected opponent champion")
                }
            },
            _ => Err("Unsupported effect"),
        }
    }
}

#[via_fn]
proof fn interp_decreases(m: MasterBoardModel, work: Seq<EffectModel>, args: Seq<EffectArgument>) {
    if work.len() > 0 {
        let rest = work.drop_last();
        let e = work.last();
        assert(effects_size(work) == effects_size(rest) + effect_size(e));
        effect_size_pos(e);
        match e {
            EffectModel::Choice(a, b) => {
                effects_size_append(rest, a.reverse());
                effects_size_reverse(a);
                effects_size_append(rest, b.reverse());
                effects_size_reverse(b);
            },
            EffectModel::Draw(x) => {
                if x > 0 {
                    effects_size_push(rest, EffectModel::Draw((x - 1) as usize));
                }
            },
            EffectModel::Sacrifice(n) => {
                if n > 0 {
                    effects_size_push(rest, EffectModel::Sacrifice((n - 1) as usize));
                }
            },
            EffectModel::HealPer(x, per) => {
                effects_size_push(
                    rest,
                    EffectModel::Heal(sat_mul(x, spec_times(cur_mat(m).field, per))),
                );
            },
            EffectModel::CombatPer(x, per) => {
                effects_size_push(
                    rest,
                    EffectModel::Combat(sat_mul(x, spec_times(cur_mat(m).field, per))),
                );
            },
            _ => {},
        }
    }
}

/// What running an ability's instruction list does: the instructions
/// are stacked in reverse so that they resolve in reading order.
pub open spec fn apply_effects_model(
    m: MasterBoardModel,
    effects: Seq<EffectModel>,
    args: Seq<EffectArgument>,
) -> Result<(MasterBoardModel, Seq<BoardDelta>), &'static str> {
    interp(m, effects.reverse(), args.reverse())
}

} // verus!
verus! {

/// Abstraction distributes over concatenation of instruction lists.
pub proof fn effects_model_append(s: Seq<Effect>, t: Seq<Effect>)
    ensures
        effects_model(s + t) == effects_model(s) + effects_model(t),
{
    assert(effects_model(s + t) =~= effects_model(s) + effects_model(t));
}

/// Abstraction commutes with reversal of an instruction list.
pub proof fn effects_model_reverse(s: Seq<Effect>)
    ensures
        effects_model(s.reverse()) == effects_model(s).reverse(),
{
    assert(effects_model(s.reverse()) =~= effects_model(s).reverse());
}

/// Saturating multiplication.
fn mul_sat(a: usize, b: usize) -> (r: usize)
    ensures
        r == sat_mul(a, b),
{
    match a.checked_mul(b) {
        Some(v) => v,
        None => usize::MAX,
    }
}

/// The elements of a vector, in reverse order.
fn reversed<T>(v: Vec<T>) -> (r: Vec<T>)
    ensures
        r@ == v@.reverse(),
{
    let ghost orig = v@;
    let mut v = v;
    let mut r: Vec<T> = Vec::new();
    while v.len() > 0
        invariant
            orig.len() == r@.len() + v@.len(),
            (forall|i: int| 0 <= i < v@.len() ==> v@[i] == orig[i]),
            (forall|i: int| 0 <= i < r@.len() ==> r@[i] == orig[orig.len() - 1 - i]),
        decreases v.len(),
    {
        let x = v.pop().unwrap();
        r.push(x);
    }
    proof {
        assert(r@ =~= orig.reverse());
    }
    r
}

} // verus!

verus! {

impl MasterBoard {
    /// The multiplier of a scaled effect, counted over the acting
    /// player's battlefield.
    fn calculate_times(&self, times: PerAmount) -> (r: usize)
        requires
            self@.current_player < self@.mats.len(),
        ensures
            r == spec_times(cur_mat(self@).field, times),
    {
        let field = &self.mats[self.current_player].field;
        let mut count: usize = 0;
        let mut i: usize = 0;
        while i < field.len()
            invariant
                i <= field.len(),
                count <= i,
                count == count_matching(field@.subrange(0, i as int), times),
            decreases field.len() - i,
        {
            let matches_rule = match times {
                PerAmount::Champion => field[i].card.is_champion(),
                PerAmount::AdditionalChampion => field[i].card.is_champion(),
                PerAmount::AdditionalFactionCard(f) => field[i].card.faction() == f,
                PerAmount::AdditionalGuardian => field[i].card.is_guard(),
            };
            if matches_rule {
                count = count + 1;
            }
            i = i + 1;
            proof {
                assert(field@.subrange(0, i as int).drop_last() =~= field@.subrange(
                    0,
                    i - 1,
                ));
                assert(field@.subrange(0, i as int).last() == field@[i - 1]);
            }
        }
        proof {
            assert(field@.subrange(0, field@.len() as int) =~= field@);
        }
        let sub: usize = match times {
            PerAmount::Champion => 0,
            _ => 1,
        };
        if count >= sub {
            count - sub
        } else {
            0
        }
    }
}

} // verus!

verus! {

impl MasterBoard {
    /// Runs an ability's instruction list against this board, consuming
    /// `effect_args` in resolution order and returning the deltas that
    /// record every mutation, or the error that aborts the batch.
    /// Runs an ability's instruction list against this board, consuming
    /// `effect_args` in resolution order and returning the deltas that
    /// record every mutation, or the error that aborts the whole batch.
    #[verifier::rlimit(100)]
    pub fn apply_effects(
        &mut self,
        effects: Vec<Effect>,
        effect_args: Vec<EffectArgument>,
    ) -> (r: Result<Vec<BoardDelta>, &'static str>)
        requires
            wf(old(self)@),
        ensures
            wf(final(self)@),
            (match apply_effects_model(old(self)@, effects_model(effects@), effect_args@) {
                Ok(pair) => r matches Ok(v) && v@ == pair.1 && final(self)@ == pair.0,
                Err(e) => r matches Err(e2) && e2 == e,
            }),
            final(self)@.players == old(self)@.players,
            final(self)@.current_player == old(self)@.current_player,
            final(self)@.mats.len() == old(self)@.mats.len(),
            final(self)@.shop == old(self)@.shop,
            final(self)@.shop_deck == old(self)@.shop_deck,
            final(self)@.gems == old(self)@.gems,
    {
        let ghost m0 = self@;
        let ghost work0 = effects_model(effects@).reverse();
        let ghost args0 = effect_args@.reverse();
        proof {
            effects_model_reverse(effects@);
        }
        let mut stack = reversed(effects);
        let mut args = reversed(effect_args);
        let mut deltas: Vec<BoardDelta> = Vec::new();
        while stack.len() > 0
            invariant
                wf(self@),
                self@.players == m0.players,
                self@.current_player == m0.current_player,
                self@.mats.len() == m0.mats.len(),
                self@.shop == m0.shop,
                self@.shop_deck == m0.shop_deck,
                self@.gems == m0.gems,
                interp(m0, work0, args0) == interp_prepend(
                    deltas@,
                    interp(self@, effects_model(stack@), args@),
                ),
            decreases effects_size(effects_model(stack@)), head_amount(effects_model(stack@)),
        {
            let ghost m_pre = self@;
            let ghost work_pre = effects_model(stack@);
            let ghost args_pre = args@;
            let ghost deltas_pre = deltas@;
            let ghost matp = cur_mat(m_pre);
            let e = stack.pop().unwrap();
            proof {
                assert(effects_model(stack@) =~= work_pre.drop_last());
                assert(effect_model(e) == work_pre.last());
                effect_size_pos(work_pre.last());
            }
            let cp = self.current_player;
            match e {
                Effect::Gold(x) => {
                    self.bump_gold(x, &mut deltas);
                    proof {
                        let step = seq![BoardDelta::IncreaseGold(cp, x)];
                        assert(deltas@ =~= deltas_pre + step);
                        assert(interp(m_pre, work_pre, args_pre) == interp_prepend(
                            step,
                            interp(self@, effects_model(stack@), args@),
                        ));
                        interp_prepend_assoc(
                            deltas_pre,
                            step,
                            interp(self@, effects_model(stack@), args@),
                        );
                    }
                },
                Effect::Combat(x) => {
                    self.bump_combat(x, &mut deltas);
                    proof {
                        let step = seq![BoardDelta::IncreaseCombat(cp, x)];
                        assert(deltas@ =~= deltas_pre + step);
                        assert(interp(m_pre, work_pre, args_pre) == interp_prepend(
                            step,
                            interp(self@, effects_model(stack@), args@),
                        ));
                        interp_prepend_assoc(
                            deltas_pre,
                            step,
                            interp(self@, effects_model(stack@), args@),
                        );
                    }
                },
                Effect::Heal(x) => {
                    self.bump_lives(x, &mut deltas);
                    proof {
                        let step = seq![BoardDelta::IncreaseHealth(cp, x)];
                        assert(deltas@ =~= deltas_pre + step);
                        assert(interp(m_pre, work_pre, args_pre) == interp_prepend(
                            step,
                            interp(self@, effects_model(stack@), args@),
                        ));
                        interp_prepend_assoc(
                            deltas_pre,
                            step,
                            interp(self@, effects_model(stack@), args@),
                        );
                    }
                },
                Effect::Nothing => {
                    proof {
                        assert(deltas@ =~= deltas_pre + Seq::<BoardDelta>::empty());
                        interp_prepend_assoc(
                            deltas_pre,
                            Seq::<BoardDelta>::empty(),
                            interp(self@, effects_model(stack@), args@),
                        );
                    }
                },
                Effect::Draw(x) => {
                    if x == 0 {
                        proof {
                            assert(deltas@ =~= deltas_pre + Seq::<BoardDelta>::empty());
                            interp_prepend_assoc(
                                deltas_pre,
                                Seq::<BoardDelta>::empty(),
                                interp(self@, effects_model(stack@), args@),
                            );
                        }
                    } else {
                        let ghost d = draw_one(matp, m_pre.seed, cp);
                        self.draw_one_card(&mut deltas);
                        stack.push(Effect::Draw(x - 1));
                        proof {
                            assert(effects_model(stack@) =~= work_pre.drop_last().push(
                                EffectModel::Draw((x - 1) as usize),
                            ));
                            effects_size_push(
                                work_pre.drop_last(),
                                EffectModel::Draw((x - 1) as usize),
                            );
                            assert(deltas@ == deltas_pre + d.2);
                            assert(interp(m_pre, work_pre, args_pre) == interp_prepend(
                                d.2,
                                interp(self@, effects_model(stack@), args@),
                            ));
                            interp_prepend_assoc(
                                deltas_pre,
                                d.2,
                                interp(self@, effects_model(stack@), args@),
                            );
                        }
                    }
                },
                Effect::OpponentDiscards(x) => {
                    match args.pop() {
                        Some(EffectArgument::Opponent(o)) => {
                            if o >= self.players {
                                proof {
                                    assert(interp(m_pre, work_pre, args_pre) == Err::<
                                        (MasterBoardModel, Seq<BoardDelta>),
                                        &'static str,
                                    >("No such player"));
                                }
                                return Err("No such player");
                            }
                            self.bump_must_discard(o, x, &mut deltas);
                            proof {
                                let step = seq![BoardDelta::IncreaseDiscardAmount(o, x)];
                                assert(deltas@ =~= deltas_pre + step);
                                assert(interp(m_pre, work_pre, args_pre) == interp_prepend(
                                    step,
                                    interp(self@, effects_model(stack@), args@),
                                ));
                                interp_prepend_assoc(
                                    deltas_pre,
                                    step,
                                    interp(self@, effects_model(stack@), args@),
                                );
                            }
                        },
                        _ => {
                            proof {
                                assert(interp(m_pre, work_pre, args_pre) == Err::<
                                    (MasterBoardModel, Seq<BoardDelta>),
                                    &'static str,
                                >("Wrong arguments, expected opponent"));
                            }
                            return Err("Wrong arguments, expected opponent");
                        },
                    }
                },
                Effect::PlayerDiscards(x) => {
                    self.bump_must_discard(cp, x, &mut deltas);
                    proof {
                        let step = seq![BoardDelta::IncreaseDiscardAmount(cp, x)];
                        assert(deltas@ =~= deltas_pre + step);
                        assert(interp(m_pre, work_pre, args_pre) == interp_prepend(
                            step,
                            interp(self@, effects_model(stack@), args@),
                        ));
                        interp_prepend_assoc(
                            deltas_pre,
                            step,
                            interp(self@, effects_model(stack@), args@),
                        );
                    }
                },
                Effect::Choice(first, second) => {
                    let branch = match args.pop() {
                        Some(EffectArgument::ChooseFirst) => first,
                        Some(EffectArgument::ChooseSecond) => second,
                        _ => {
                            proof {
                                assert(interp(m_pre, work_pre, args_pre) == Err::<
                                    (MasterBoardModel, Seq<BoardDelta>),
                                    &'static str,
                                >("Wrong arguments, expected choice"));
                            }
                            return Err("Wrong arguments, expected choice");
                        },
                    };
                    let ghost rest_exec = stack@;
                    let ghost branch_view = branch@;
                    let mut rev = reversed(branch);
                    stack.append(&mut rev);
                    proof {
                        effects_model_append(rest_exec, branch_view.reverse());
                        effects_model_reverse(branch_view);
                        effects_size_append(
                            effects_model(rest_exec),
                            effects_model(branch_view).reverse(),
                        );
                        effects_size_reverse(effects_model(branch_view));
                        assert(stack@ =~= rest_exec + branch_view.reverse());
                        assert(effects_model(stack@) == effects_model(rest_exec)
                            + effects_model(branch_view).reverse());
                        assert(deltas@ =~= deltas_pre + Seq::<BoardDelta>::empty());
                        interp_prepend_assoc(
                            deltas_pre,
                            Seq::<BoardDelta>::empty(),
                            interp(self@, effects_model(stack@), args@),
                        );
                    }
                },
                Effect::Sacrifice(amount) => {
                    if amount == 0 {
                        proof {
                            assert(deltas@ =~= deltas_pre + Seq::<BoardDelta>::empty());
                            interp_prepend_assoc(
                                deltas_pre,
                                Seq::<BoardDelta>::empty(),
                                interp(self@, effects_model(stack@), args@),
                            );
                        }
                    } else {
                        match args.pop() {
                            Some(EffectArgument::CardInHand(i)) => {
                                if i >= self.mats[cp].hand.len() {
                                    proof {
                                        assert(interp(m_pre, work_pre, args_pre) == Err::<
                                            (MasterBoardModel, Seq<BoardDelta>),
                                            &'static str,
                                        >("No such card in hand"));
                                    }
                                    return Err("No such card in hand");
                                }
                                let ghost card = matp.hand[i as int];
                                self.sacrifice_from_hand(i, &mut deltas);
                                stack.push(Effect::Sacrifice(amount - 1));
                                proof {
                                    let step = seq![
                                        BoardDelta::Move(
                                            Location::Hand(cp),
                                            i,
                                            Location::Sacrifice,
                                            Some(card),
                                        ),
                                    ];
                                    assert(effects_model(stack@) =~= work_pre.drop_last().push(
                                        EffectModel::Sacrifice((amount - 1) as usize),
                                    ));
                                    effects_size_push(
                                        work_pre.drop_last(),
                                        EffectModel::Sacrifice((amount - 1) as usize),
                                    );
                                    assert(deltas@ =~= deltas_pre + step);
                                    assert(interp(m_pre, work_pre, args_pre) == interp_prepend(
                                        step,
                                        interp(self@, effects_model(stack@), args@),
                                    ));
                                    interp_prepend_assoc(
                                        deltas_pre,
                                        step,
                                        interp(self@, effects_model(stack@), args@),
                                    );
                                }
                            },
                            Some(EffectArgument::CardInDiscard(i)) => {
                                if i >= self.mats[cp].discard.len() {
                                    proof {
                                        assert(interp(m_pre, work_pre, args_pre) == Err::<
                                            (MasterBoardModel, Seq<BoardDelta>),
                                            &'static str,
                                        >("No such card in discard"));
                                    }
                                    return Err("No such card in discard");
                                }
                                let ghost card = matp.discard[i as int];
                                self.sacrifice_from_discard(i, &mut deltas);
                                stack.push(Effect::Sacrifice(amount - 1));
                                proof {
                                    let step = seq![
                                        BoardDelta::Move(
                                            Location::Discard(cp),
                                            i,
                                            Location::Sacrifice,
                                            Some(card),
                                        ),
                                    ];
                                    assert(effects_model(stack@) =~= work_pre.drop_last().push(
                                        EffectModel::Sacrifice((amount - 1) as usize),
                                    ));
                                    effects_size_push(
                                        work_pre.drop_last(),
                                        EffectModel::Sacrifice((amount - 1) as usize),
                                    );
                                    assert(deltas@ =~= deltas_pre + step);
                                    assert(interp(m_pre, work_pre, args_pre) == interp_prepend(
                                        step,
                                        interp(self@, effects_model(stack@), args@),
                                    ));
                                    interp_prepend_assoc(
                                        deltas_pre,
                                        step,
                                        interp(self@, effects_model(stack@), args@),
                                    );
                                }
                            },
                            _ => {
                                proof {
                                    assert(interp(m_pre, work_pre, args_pre) == Err::<
                                        (MasterBoardModel, Seq<BoardDelta>),
                                        &'static str,
                                    >("Wrong arguments, expected card in hand or discard"));
                                }
                                return Err("Wrong arguments, expected card in hand or discard");
                            },
                        }
                    }
                },
                Effect::HealPer(x, per) => {
                    let times = self.calculate_times(per);
                    let amount = mul_sat(x, times);
                    stack.push(Effect::Heal(amount));
                    proof {
                        assert(effects_model(stack@) =~= work_pre.drop_last().push(
                            EffectModel::Heal(amount),
                        ));
                        effects_size_push(work_pre.drop_last(), EffectModel::Heal(amount));
                        assert(deltas@ =~= deltas_pre + Seq::<BoardDelta>::empty());
                        interp_prepend_assoc(
                            deltas_pre,
                            Seq::<BoardDelta>::empty(),
                            interp(self@, effects_model(stack@), args@),
                        );
                    }
                },
                Effect::CombatPer(x, per) => {
                    let times = self.calculate_times(per);
                    let amount = mul_sat(x, times);
                    stack.push(Effect::Combat(amount));
                    proof {
                        assert(effects_model(stack@) =~= work_pre.drop_last().push(
                            EffectModel::Combat(amount),
                        ));
                        effects_size_push(work_pre.drop_last(), EffectModel::Combat(amount));
                        assert(deltas@ =~= deltas_pre + Seq::<BoardDelta>::empty());
                        interp_prepend_assoc(
                            deltas_pre,
                            Seq::<BoardDelta>::empty(),
                            interp(self@, effects_model(stack@), args@),
                        );
                    }
                },
                Effect::NextActionPurchaseToTopOfDeck => {
                    self.bump_next_action_redirect();
                    proof {
                        assert(deltas@ =~= deltas_pre + Seq::<BoardDelta>::empty());
                        interp_prepend_assoc(
                            deltas_pre,
                            Seq::<BoardDelta>::empty(),
                            interp(self@, effects_model(stack@), args@),
                        );
                    }
                },
                Effect::PrepareChampion => {
                    match args.pop() {
                        Some(EffectArgument::Champion(p, id)) => {
                            if p != cp {
                                proof {
                                    assert(interp(m_pre, work_pre, args_pre) == Err::<
                                        (MasterBoardModel, Seq<BoardDelta>),
                                        &'static str,
                                    >("Wrong arguments, expected player champion"));
                                }
                                return Err("Wrong arguments, expected player champion");
                            }
                            if id >= self.mats[cp].field.len() {
                                proof {
                                    assert(interp(m_pre, work_pre, args_pre) == Err::<
                                        (MasterBoardModel, Seq<BoardDelta>),
                                        &'static str,
                                    >("No such card in field"));
                                }
                                return Err("No such card in field");
                            }
                            if !self.mats[cp].field[id].card.is_champion() {
                                proof {
                                    assert(interp(m_pre, work_pre, args_pre) == Err::<
                                        (MasterBoardModel, Seq<BoardDelta>),
                                        &'static str,
                                    >("Target card is not a champion"));
                                }
                                return Err("Target card is not a champion");
                            }
                            self.prepare_champion_at(id, &mut deltas);
                            proof {
                                let step = seq![BoardDelta::SetExpendAbilityUsed(cp, id, false)];
                                assert(deltas@ =~= deltas_pre + step);
                                assert(interp(m_pre, work_pre, args_pre) == interp_prepend(
                                    step,
                                    interp(self@, effects_model(stack@), args@),
                                ));
                                interp_prepend_assoc(
                                    deltas_pre,
                                    step,
                                    interp(self@, effects_model(stack@), args@),
                                );
                            }
                        },
                        _ => {
                            proof {
                                assert(interp(m_pre, work_pre, args_pre) == Err::<
                                    (MasterBoardModel, Seq<BoardDelta>),
                                    &'static str,
                                >("Wrong arguments, expected player champion"));
                            }
                            return Err("Wrong arguments, expected player champion");
                        },
                    }
                },
                Effect::StunChampion => {
                    match args.pop() {
                        Some(EffectArgument::Champion(p, id)) => {
                            if p == cp {
                                proof {
                                    assert(interp(m_pre, work_pre, args_pre) == Err::<
                                        (MasterBoardModel, Seq<BoardDelta>),
                                        &'static str,
                                    >("Wrong arguments, expected opponent champion"));
                                }
                                return Err("Wrong arguments, expected opponent champion");
                            }
                            if p >= self.players {
                                proof {
                                    assert(interp(m_pre, work_pre, args_pre) == Err::<
                                        (MasterBoardModel, Seq<BoardDelta>),
                                        &'static str,
                                    >("No such player"));
                                }
                                return Err("No such player");
                            }
                            if id >= self.mats[p].field.len() {
                                proof {
                                    assert(interp(m_pre, work_pre, args_pre) == Err::<
                                        (MasterBoardModel, Seq<BoardDelta>),
                                        &'static str,
                                    >("No such champion"));
                                }
                                return Err("No such champion");
                            }
                            if !self.mats[p].field[id].card.is_champion() {
                                proof {
                                    assert(interp(m_pre, work_pre, args_pre) == Err::<
                                        (MasterBoardModel, Seq<BoardDelta>),
                                        &'static str,
                                    >("Target card is not a champion"));
                                }
                                return Err("Target card is not a champion");
                            }
                            let ghost card = m_pre.mats[p as int].field[id as int].card;
                            self.knock_out_champion(p, id, &mut deltas);
                            proof {
                                let step = seq![
                                    BoardDelta::Move(
                                        Location::Field(p),
                                        id,
                                        Location::Discard(p),
                                        Some(card),
                                    ),
                                ];
                                assert(deltas@ =~= deltas_pre + step);
                                assert(interp(m_pre, work_pre, args_pre) == interp_prepend(
                                    step,
                                    interp(self@, effects_model(stack@), args@),
                                ));
                                interp_prepend_assoc(
                                    deltas_pre,
                                    step,
                                    interp(self@, effects_model(stack@), args@),
                                );
                            }
                        },
                        _ => {
                            proof {
                                assert(interp(m_pre, work_pre, args_pre) == Err::<
                                    (MasterBoardModel, Seq<BoardDelta>),
                                    &'static str,
                                >("Wrong arguments, expected opponent champion"));
                            }
                            return Err("Wrong arguments, expected opponent champion");
                        },
                    }
                },
                _ => {
                    proof {
                        assert(interp(m_pre, work_pre, args_pre) == Err::<
                            (MasterBoardModel, Seq<BoardDelta>),
                            &'static str,
                        >("Unsupported effect"));
                    }
                    return Err("Unsupported effect");
                },
            }
        }
        proof {
            assert(effects_model(stack@).len() == 0);
            assert(interp(self@, effects_model(stack@), args@) == Ok::<
                (MasterBoardModel, Seq<BoardDelta>),
                &'static str,
            >((self@, Seq::<BoardDelta>::empty())));
            assert(deltas@ + Seq::<BoardDelta>::empty() =~= deltas@);
        }
        Ok(deltas)
    }
}

} // verus!

verus! {

impl MasterBoard {
    /// Draws one card into the acting player's hand, replenishing and
    /// reshuffling their deck from the discard pile first when the deck
    /// is empty, and appends the deltas recording it. A draw from an
    /// exhausted deck with an empty discard pile silently yields
    /// nothing.
    #[verifier::rlimit(100)]
    fn draw_one_card(&mut self, deltas: &mut Vec<BoardDelta>)
        requires
            wf(old(self)@),
        ensures
            wf(final(self)@),
            ({
                let d = draw_one(
                    cur_mat(old(self)@),
                    old(self)@.seed,
                    old(self)@.current_player,
                );
                final(self)@ == (MasterBoardModel {
                    mats: old(self)@.mats.update(old(self)@.current_player as int, d.0),
                    seed: d.1,
                    ..old(self)@
                }) && final(deltas)@ == old(deltas)@ + d.2
            }),
    {
        let ghost m_pre = self@;
        let ghost matp = cur_mat(m_pre);
        let ghost d = draw_one(matp, m_pre.seed, m_pre.current_player);
        let ghost deltas_pre = deltas@;
        let cp = self.current_player;
        let need = self.mats[cp].deck.len() == 0 && self.mats[cp].discard.len() > 0;
        if need {
            let ghost disc0 = matp.discard;
            let ghost deltas_entry = deltas@;
            while self.mats[cp].discard.len() > 0
                invariant
                    wf(self@),
                    cp == m_pre.current_player < self@.mats.len(),
                    self@.mats.len() == m_pre.mats.len(),
                    (forall|k: int|
                        0 <= k < m_pre.mats.len() && k != cp ==> self@.mats[k]
                            == m_pre.mats[k]),
                    self@.mats[cp as int] == (MasterMatModel {
                        deck: self@.mats[cp as int].deck,
                        discard: self@.mats[cp as int].discard,
                        ..matp
                    }),
                    self@ == (MasterBoardModel { mats: self@.mats, ..m_pre }),
                    disc0.len() == self@.mats[cp as int].deck.len()
                        + self@.mats[cp as int].discard.len(),
                    self@.mats[cp as int].deck =~= disc0.subrange(
                        0,
                        self@.mats[cp as int].deck.len() as int,
                    ),
                    self@.mats[cp as int].discard =~= disc0.subrange(
                        self@.mats[cp as int].deck.len() as int,
                        disc0.len() as int,
                    ),
                    deltas@ =~= deltas_entry + Seq::new(
                        self@.mats[cp as int].deck.len(),
                        |i: int|
                            BoardDelta::Move(
                                Location::Discard(cp),
                                0,
                                Location::Deck(cp),
                                Some(disc0[i]),
                            ),
                    ),
                decreases self@.mats[cp as int].discard.len(),
            {
                let card = {
                    let m = &mut self.mats[cp];
                    m.discard.remove(0)
                };
                deltas.push(
                    BoardDelta::Move(Location::Discard(cp), 0, Location::Deck(cp), Some(card)),
                );
                {
                    let m = &mut self.mats[cp];
                    m.deck.push(card);
                }
                proof {
                    let k = self@.mats[cp as int].deck.len() as int;
                    assert(self@.mats[cp as int].deck =~= disc0.subrange(0, k));
                    assert(self@.mats[cp as int].discard =~= disc0.subrange(
                        k,
                        disc0.len() as int,
                    ));
                    assert(mat_card_count(self@.mats[cp as int]) == mat_card_count(matp));
                    lemma_mats_count_update(m_pre.mats, cp as int, self@.mats[cp as int]);
                    assert(self@.mats =~= m_pre.mats.update(cp as int, self@.mats[cp as int]));
                    assert(total_card_count(self@) <= u32::MAX);
                    assert(deltas@ =~= deltas_entry + Seq::new(
                        k as nat,
                        |i: int|
                            BoardDelta::Move(
                                Location::Discard(cp),
                                0,
                                Location::Deck(cp),
                                Some(disc0[i]),
                            ),
                    ));
                }
            }
            proof {
                assert(self@.mats[cp as int].deck =~= disc0);
                lemma_mat_count_le(self@.mats, cp as int);
            }
            let ghost m_loopend = self@;
            self.rng.shuffle(&mut self.mats[cp].deck);
            deltas.push(BoardDelta::ShuffleDeck(cp));
            proof {
                let sh = spec_shuffle(disc0, m_pre.seed);
                lemma_shuffle_multiset(disc0, m_pre.seed);
                assert(self@.mats[cp as int].deck == sh.0);
                assert(self@.mats[cp as int] == (MasterMatModel {
                    deck: sh.0,
                    discard: Seq::<Card>::empty(),
                    ..matp
                }));
                assert(m_loopend.mats =~= m_pre.mats.update(
                    cp as int,
                    m_loopend.mats[cp as int],
                ));
                assert(self@.mats =~= m_loopend.mats.update(cp as int, self@.mats[cp as int]));
                assert(self@.mats =~= m_pre.mats.update(cp as int, self@.mats[cp as int]));
                assert(self@ =~~= (MasterBoardModel {
                    mats: m_pre.mats.update(cp as int, self@.mats[cp as int]),
                    seed: sh.1,
                    ..m_pre
                }));
                assert(deltas@ =~= deltas_entry + reshuffle_deltas(disc0, cp));
            }
        }
        let ghost m_mid = self@;
        let ghost mat_mid = cur_mat(m_mid);
        let ghost deltas_mid = deltas@;
        let popped = {
            let m = &mut self.mats[cp];
            m.deck.pop()
        };
        if let Some(card) = popped {
            {
                let m = &mut self.mats[cp];
                m.hand.push(card);
            }
            deltas.push(BoardDelta::Move(Location::Deck(cp), 0, Location::Hand(cp), Some(card)));
            proof {
                assert(self@.mats =~= m_mid.mats.update(cp as int, self@.mats[cp as int]));
                assert(self@ =~~= with_mat(
                    m_mid,
                    cp,
                    MasterMatModel {
                        deck: mat_mid.deck.drop_last(),
                        hand: mat_mid.hand.push(card),
                        ..mat_mid
                    },
                ));
            }
        }
        proof {
            lemma_mat_count_le(m_pre.mats, cp as int);
            lemma_shuffle_multiset(matp.discard, m_pre.seed);
            assert(m_mid.mats =~= m_pre.mats.update(cp as int, m_mid.mats[cp as int]));
            assert(self@.mats =~= m_mid.mats.update(cp as int, self@.mats[cp as int]));
            assert(self@.mats =~= m_pre.mats.update(cp as int, self@.mats[cp as int]));
            assert(self@ =~~= (MasterBoardModel {
                mats: m_pre.mats.update(cp as int, d.0),
                seed: d.1,
                ..m_pre
            }));
            lemma_mats_count_update(m_pre.mats, cp as int, d.0);
            assert(deltas@ =~= deltas_pre + d.2);
        }
    }
}

} // verus!

verus! {

impl MasterBoard {
    /// Adds gold to the acting player, recording the delta.
    fn bump_gold(&mut self, x: usize, deltas: &mut Vec<BoardDelta>)
        requires
            wf(old(self)@),
        ensures
            wf(final(self)@),
            final(self)@ == with_mat(
                old(self)@,
                old(self)@.current_player,
                (MasterMatModel {
                    gold: cur_mat(old(self)@).gold.saturating_add(x),
                    ..cur_mat(old(self)@)
                }),
            ),
            final(deltas)@ == old(deltas)@.push(
                BoardDelta::IncreaseGold(old(self)@.current_player, x),
            ),
    {
        let cp = self.current_player;
        {
            let m = &mut self.mats[cp];
            m.gold = m.gold.saturating_add(x);
        }
        deltas.push(BoardDelta::IncreaseGold(cp, x));
        proof {
            assert(self@ =~~= with_mat(
                old(self)@,
                cp,
                MasterMatModel {
                    gold: cur_mat(old(self)@).gold.saturating_add(x),
                    ..cur_mat(old(self)@)
                },
            ));
            lemma_mats_count_update(old(self)@.mats, cp as int, cur_mat(self@));
        }
    }

    /// Adds combat to the acting player, recording the delta.
    fn bump_combat(&mut self, x: usize, deltas: &mut Vec<BoardDelta>)
        requires
            wf(old(self)@),
        ensures
            wf(final(self)@),
            final(self)@ == with_mat(
                old(self)@,
                old(self)@.current_player,
                (MasterMatModel {
                    combat: cur_mat(old(self)@).combat.saturating_add(x),
                    ..cur_mat(old(self)@)
                }),
            ),
            final(deltas)@ == old(deltas)@.push(
                BoardDelta::IncreaseCombat(old(self)@.current_player, x),
            ),
    {
        let cp = self.current_player;
        {
            let m = &mut self.mats[cp];
            m.combat = m.combat.saturating_add(x);
        }
        deltas.push(BoardDelta::IncreaseCombat(cp, x));
        proof {
            assert(self@ =~~= with_mat(
                old(self)@,
                cp,
                MasterMatModel {
                    combat: cur_mat(old(self)@).combat.saturating_add(x),
                    ..cur_mat(old(self)@)
                },
            ));
            lemma_mats_count_update(old(self)@.mats, cp as int, cur_mat(self@));
        }
    }

    /// Heals the acting player, recording the delta.
    fn bump_lives(&mut self, x: usize, deltas: &mut Vec<BoardDelta>)
        requires
            wf(old(self)@),
        ensures
            wf(final(self)@),
            final(self)@ == with_mat(
                old(self)@,
                old(self)@.current_player,
                (MasterMatModel {
                    lives: cur_mat(old(self)@).lives.saturating_add(x),
                    ..cur_mat(old(self)@)
                }),
            ),
            final(deltas)@ == old(deltas)@.push(
                BoardDelta::IncreaseHealth(old(self)@.current_player, x),
            ),
    {
        let cp = self.current_player;
        {
            let m = &mut self.mats[cp];
            m.lives = m.lives.saturating_add(x);
        }
        deltas.push(BoardDelta::IncreaseHealth(cp, x));
        proof {
            assert(self@ =~~= with_mat(
                old(self)@,
                cp,
                MasterMatModel {
                    lives: cur_mat(old(self)@).lives.saturating_add(x),
                    ..cur_mat(old(self)@)
                },
            ));
            lemma_mats_count_update(old(self)@.mats, cp as int, cur_mat(self@));
        }
    }

    /// Raises a player's owed-discard count, recording the delta.
    fn bump_must_discard(&mut self, p: usize, x: usize, deltas: &mut Vec<BoardDelta>)
        requires
            wf(old(self)@),
            p < old(self)@.mats.len(),
        ensures
            wf(final(self)@),
            final(self)@ == with_mat(
                old(self)@,
                p,
                (MasterMatModel {
                    must_discard: old(self)@.mats[p as int].must_discard.saturating_add(x),
                    ..old(self)@.mats[p as int]
                }),
            ),
            final(deltas)@ == old(deltas)@.push(BoardDelta::IncreaseDiscardAmount(p, x)),
    {
        {
            let m = &mut self.mats[p];
            m.must_discard = m.must_discard.saturating_add(x);
        }
        deltas.push(BoardDelta::IncreaseDiscardAmount(p, x));
        proof {
            assert(self@ =~~= with_mat(
                old(self)@,
                p,
                MasterMatModel {
                    must_discard: old(self)@.mats[p as int].must_discard.saturating_add(x),
                    ..old(self)@.mats[p as int]
                },
            ));
            lemma_mats_count_update(old(self)@.mats, p as int, self@.mats[p as int]);
        }
    }

    /// Arms the acting player's next-action-purchase redirect.
    fn bump_next_action_redirect(&mut self)
        requires
            wf(old(self)@),
        ensures
            wf(final(self)@),
            final(self)@ == with_mat(
                old(self)@,
                old(self)@.current_player,
                (MasterMatModel {
                    next_action_purchase_to_top_of_deck: cur_mat(
                        old(self)@,
                    ).next_action_purchase_to_top_of_deck.saturating_add(1),
                    ..cur_mat(old(self)@)
                }),
            ),
    {
        let cp = self.current_player;
        {
            let m = &mut self.mats[cp];
            m.next_action_purchase_to_top_of_deck =
                m.next_action_purchase_to_top_of_deck.saturating_add(1);
        }
        proof {
            assert(self@ =~~= with_mat(
                old(self)@,
                cp,
                MasterMatModel {
                    next_action_purchase_to_top_of_deck: cur_mat(
                        old(self)@,
                    ).next_action_purchase_to_top_of_deck.saturating_add(1),
                    ..cur_mat(old(self)@)
                },
            ));
            lemma_mats_count_update(old(self)@.mats, cp as int, cur_mat(self@));
        }
    }

    /// Moves the acting player's hand card `i` to the shared sacrifice
    /// pile, recording the delta.
    fn sacrifice_from_hand(&mut self, i: usize, deltas: &mut Vec<BoardDelta>)
        requires
            wf(old(self)@),
            i < cur_mat(old(self)@).hand.len(),
        ensures
            wf(final(self)@),
            final(self)@ == (MasterBoardModel {
                mats: old(self)@.mats.update(
                    old(self)@.current_player as int,
                    (MasterMatModel {
                        hand: cur_mat(old(self)@).hand.remove(i as int),
                        ..cur_mat(old(self)@)
                    }),
                ),
                sacrificed: old(self)@.sacrificed.push(cur_mat(old(self)@).hand[i as int]),
                ..old(self)@
            }),
            final(deltas)@ == old(deltas)@.push(
                BoardDelta::Move(
                    Location::Hand(old(self)@.current_player),
                    i,
                    Location::Sacrifice,
                    Some(cur_mat(old(self)@).hand[i as int]),
                ),
            ),
    {
        let cp = self.current_player;
        let card = {
            let m = &mut self.mats[cp];
            m.hand.remove(i)
        };
        self.sacrificed.push(card);
        deltas.push(BoardDelta::Move(Location::Hand(cp), i, Location::Sacrifice, Some(card)));
        proof {
            assert(self@ =~~= (MasterBoardModel {
                mats: old(self)@.mats.update(
                    cp as int,
                    MasterMatModel {
                        hand: cur_mat(old(self)@).hand.remove(i as int),
                        ..cur_mat(old(self)@)
                    },
                ),
                sacrificed: old(self)@.sacrificed.push(card),
                ..old(self)@
            }));
            lemma_mats_count_update(old(self)@.mats, cp as int, cur_mat(self@));
        }
    }

    /// Moves the acting player's discard card `i` to the shared
    /// sacrifice pile, recording the delta.
    fn sacrifice_from_discard(&mut self, i: usize, deltas: &mut Vec<BoardDelta>)
        requires
            wf(old(self)@),
            i < cur_mat(old(self)@).discard.len(),
        ensures
            wf(final(self)@),
            final(self)@ == (MasterBoardModel {
                mats: old(self)@.mats.update(
                    old(self)@.current_player as int,
                    (MasterMatModel {
                        discard: cur_mat(old(self)@).discard.remove(i as int),
                        ..cur_mat(old(self)@)
                    }),
                ),
                sacrificed: old(self)@.sacrificed.push(cur_mat(old(self)@).discard[i as int]),
                ..old(self)@
            }),
            final(deltas)@ == old(deltas)@.push(
                BoardDelta::Move(
                    Location::Discard(old(self)@.current_player),
                    i,
                    Location::Sacrifice,
                    Some(cur_mat(old(self)@).discard[i as int]),
                ),
            ),
    {
        let cp = self.current_player;
        let card = {
            let m = &mut self.mats[cp];
            m.discard.remove(i)
        };
        self.sacrificed.push(card);
        deltas.push(BoardDelta::Move(Location::Discard(cp), i, Location::Sacrifice, Some(card)));
        proof {
            assert(self@ =~~= (MasterBoardModel {
                mats: old(self)@.mats.update(
                    cp as int,
                    MasterMatModel {
                        discard: cur_mat(old(self)@).discard.remove(i as int),
                        ..cur_mat(old(self)@)
                    },
                ),
                sacrificed: old(self)@.sacrificed.push(card),
                ..old(self)@
            }));
            lemma_mats_count_update(old(self)@.mats, cp as int, cur_mat(self@));
        }
    }

    /// Clears the expend flag of the acting player's champion `id`,
    /// recording the delta.
    fn prepare_champion_at(&mut self, id: usize, deltas: &mut Vec<BoardDelta>)
        requires
            wf(old(self)@),
            id < cur_mat(old(self)@).field.len(),
        ensures
            wf(final(self)@),
            final(self)@ == with_mat(
                old(self)@,
                old(self)@.current_player,
                (MasterMatModel {
                    field: cur_mat(old(self)@).field.update(
                        id as int,
                        (CardInField {
                            expend_ability_used: false,
                            ..cur_mat(old(self)@).field[id as int]
                        }),
                    ),
                    ..cur_mat(old(self)@)
                }),
            ),
            final(deltas)@ == old(deltas)@.push(
                BoardDelta::SetExpendAbilityUsed(old(self)@.current_player, id, false),
            ),
    {
        let cp = self.current_player;
        let mut cif = self.mats[cp].field[id];
        cif.expend_ability_used = false;
        {
            let m = &mut self.mats[cp];
            m.field.set(id, cif);
        }
        deltas.push(BoardDelta::SetExpendAbilityUsed(cp, id, false));
        proof {
            assert(self@ =~~= with_mat(
                old(self)@,
                cp,
                MasterMatModel {
                    field: cur_mat(old(self)@).field.update(id as int, cif),
                    ..cur_mat(old(self)@)
                },
            ));
            lemma_mats_count_update(old(self)@.mats, cp as int, cur_mat(self@));
        }
    }

    /// Moves champion `id` of player `p` from their battlefield to
    /// their discard pile, recording the delta.
    fn knock_out_champion(&mut self, p: usize, id: usize, deltas: &mut Vec<BoardDelta>)
        requires
            wf(old(self)@),
            p < old(self)@.mats.len(),
            id < old(self)@.mats[p as int].field.len(),
        ensures
            wf(final(self)@),
            final(self)@ == with_mat(
                old(self)@,
                p,
                (MasterMatModel {
                    field: old(self)@.mats[p as int].field.remove(id as int),
                    discard: old(self)@.mats[p as int].discard.push(
                        old(self)@.mats[p as int].field[id as int].card,
                    ),
                    ..old(self)@.mats[p as int]
                }),
            ),
            final(deltas)@ == old(deltas)@.push(
                BoardDelta::Move(
                    Location::Field(p),
                    id,
                    Location::Discard(p),
                    Some(old(self)@.mats[p as int].field[id as int].card),
                ),
            ),
    {
        let cif = {
            let m = &mut self.mats[p];
            m.field.remove(id)
        };
        {
            let m = &mut self.mats[p];
            m.discard.push(cif.card);
        }
        deltas.push(BoardDelta::Move(Location::Field(p), id, Location::Discard(p), Some(cif.card)));
        proof {
            assert(self@ =~~= with_mat(
                old(self)@,
                p,
                MasterMatModel {
                    field: old(self)@.mats[p as int].field.remove(id as int),
                    discard: old(self)@.mats[p as int].discard.push(cif.card),
                    ..old(self)@.mats[p as int]
                },
            ));
            lemma_mats_count_update(old(self)@.mats, p as int, self@.mats[p as int]);
        }
    }
}

} // verus!
verus! {

/// Whether any battlefield card blocks direct attacks.
pub open spec fn spec_has_guard(field: Seq<CardInField>) -> bool {
    exists|k: int| 0 <= k < field.len() && field[k].card.spec_is_guard()
}

/// How many players still hold lives.
pub open spec fn count_alive(mats: Seq<MasterMatModel>) -> nat
    decreases mats,
{
    if mats.len() == 0 {
        0
    } else {
        count_alive(mats.drop_last()) + if mats.last().lives > 0 {
            1nat
        } else {
            0nat
        }
    }
}

/// Appends the terminal marker and sets the one-way flag when exactly
/// one player is left alive.
pub open spec fn with_game_over_check(m: MasterBoardModel, ds: Seq<BoardDelta>) -> (
    MasterBoardModel,
    Seq<BoardDelta>,
) {
    if count_alive(m.mats) == 1 {
        (MasterBoardModel { game_over: true, ..m }, ds.push(BoardDelta::GameOver))
    } else {
        (m, ds)
    }
}

/// Repeatedly moves the first non-champion at or after position `i` to
/// the discard pile: the battlefield kept, the cards discarded in
/// order, and the deltas recording each move.
pub open spec fn strip_non_champions(field: Seq<CardInField>, i: nat, p: usize) -> (
    Seq<CardInField>,
    Seq<Card>,
    Seq<BoardDelta>,
)
    decreases field.len(), field.len() - i,
{
    if i >= field.len() {
        (field, seq![], seq![])
    } else if !field[i as int].card.spec_is_champion() {
        let card = field[i as int].card;
        let r = strip_non_champions(field.remove(i as int), i, p);
        (
            r.0,
            seq![card] + r.1,
            seq![
                BoardDelta::Move(Location::Field(p), i as usize, Location::Discard(p), Some(card)),
            ] + r.2,
        )
    } else {
        strip_non_champions(field, i + 1, p)
    }
}

/// Every battlefield card with both per-turn ability flags cleared.
pub open spec fn cleared_flags(field: Seq<CardInField>) -> Seq<CardInField> {
    field.map_values(
        |c: CardInField|
            CardInField { expend_ability_used: false, ally_ability_used: false, ..c },
    )
}

/// The flag-clearing deltas of a turn end: an expend and an ally reset
/// per remaining battlefield position.
pub open spec fn clear_flag_deltas(n: nat, p: usize) -> Seq<BoardDelta> {
    Seq::new(
        2 * n,
        |k: int|
            if k % 2 == 0 {
                BoardDelta::SetExpendAbilityUsed(p, (k / 2) as usize, false)
            } else {
                BoardDelta::SetAllyAbilityUsed(p, (k / 2) as usize, false)
            },
    )
}

/// The deltas of discarding a whole hand, always from position zero.
pub open spec fn discard_hand_deltas(hand: Seq<Card>, p: usize) -> Seq<BoardDelta> {
    Seq::new(
        hand.len(),
        |i: int| BoardDelta::Move(Location::Hand(p), 0, Location::Discard(p), Some(hand[i])),
    )
}

/// What a submitted action does to the authoritative board: either the
/// successor board and the ordered deltas that record every mutation,
/// or the error that leaves the board untouched. The owed-discard
/// sub-state takes priority over everything else; after any other
/// successful action the match ends if a single player retains lives.
pub open spec fn do_action_model(m: MasterBoardModel, action: PlayerAction) -> Result<
    (MasterBoardModel, Seq<BoardDelta>),
    &'static str,
> {
    let cp = m.current_player;
    let mat = cur_mat(m);
    if m.game_over {
        Err("The game is already over")
    } else if mat.must_discard > 0 {
        match action {
            PlayerAction::Discard(i) => {
                if i >= mat.hand.len() {
                    Err("No such card in hand")
                } else {
                    let card = mat.hand[i as int];
                    let m1 = with_mat(
                        m,
                        cp,
                        MasterMatModel {
                            hand: mat.hand.remove(i as int),
                            discard: mat.discard.push(card),
                            must_discard: (mat.must_discard - 1) as usize,
                            ..mat
                        },
                    );
                    Ok(
                        (
                            m1,
                            seq![
                                BoardDelta::Move(
                                    Location::Hand(cp),
                                    i,
                                    Location::Discard(cp),
                                    Some(card),
                                ),
                                BoardDelta::DecreaseDiscardAmount(cp, 1),
                            ],
                        ),
                    )
                }
            },
            _ => Err("Must discard first"),
        }
    } else {
        match action_step_model(m, action) {
            Ok((m2, ds)) => Ok(with_game_over_check(m2, ds)),
            Err(e) => Err(e),
        }
    }
}

/// The per-variant core of `do_action_model`, before the end-of-match
/// check.
pub open spec fn action_step_model(m: MasterBoardModel, action: PlayerAction) -> Result<
    (MasterBoardModel, Seq<BoardDelta>),
    &'static str,
> {
    let cp = m.current_player;
    let mat = cur_mat(m);
    match action {
        PlayerAction::Play(position, effect_args) => play_model(m, position, effect_args@),
        PlayerAction::ActivateSacrificeAbility(i, effect_args) => activate_sacrifice_model(
            m,
            i,
            effect_args@,
        ),
        PlayerAction::ActivateExpendAbility(i, effect_args) => activate_expend_model(
            m,
            i,
            effect_args@,
        ),
        PlayerAction::ActivateAllyAbility(i, effect_args) => activate_ally_model(
            m,
            i,
            effect_args@,
        ),
        PlayerAction::EndTurn => end_turn_model(m),
        PlayerAction::PurchaseFromShop(position) => purchase_from_shop_model(m, position),
        PlayerAction::PurchaseFireGem => purchase_fire_gem_model(m),
        PlayerAction::AttackPlayer(player, amount) => attack_player_model(m, player, amount),
        PlayerAction::AttackPlayerChampion(player, champion) => attack_player_champion_model(
            m,
            player,
            champion,
        ),
        _ => Err("Unsupported action"),
    }
}


/// What playing hand card `position` does: the card moves to the
/// battlefield and its primary ability, if any, runs.
pub open spec fn play_model(m: MasterBoardModel, position: usize, args: Seq<EffectArgument>) -> Result<
    (MasterBoardModel, Seq<BoardDelta>),
    &'static str,
> {
    let cp = m.current_player;
    let mat = cur_mat(m);

    if position >= mat.hand.len() {
        Err("No such card in hand")
    } else {
        let card = mat.hand[position as int];
        let m1 = with_mat(
            m,
            cp,
            MasterMatModel {
                hand: mat.hand.remove(position as int),
                field: mat.field.push(
                    CardInField {
                        card,
                        expend_ability_used: false,
                        ally_ability_used: false,
                    },
                ),
                ..mat
            },
        );
        let d0 = seq![
            BoardDelta::Move(Location::Hand(cp), position, Location::Field(cp), Some(card)),
        ];
        match card.spec_primary_ability() {
            Some(effs) => interp_prepend(
                d0,
                apply_effects_model(m1, effs, args),
            ),
            None => Ok((m1, d0)),
        }
    }
}

/// What sacrificing battlefield card `i` does: the card is consumed
/// into the shared pile before its ability is even looked up.
pub open spec fn activate_sacrifice_model(m: MasterBoardModel, i: usize, args: Seq<EffectArgument>) -> Result<
    (MasterBoardModel, Seq<BoardDelta>),
    &'static str,
> {
    let cp = m.current_player;
    let mat = cur_mat(m);

    if i >= mat.field.len() {
        Err("No such card in field")
    } else {
        let card = mat.field[i as int].card;
        let m1 = MasterBoardModel {
            mats: m.mats.update(
                cp as int,
                MasterMatModel { field: mat.field.remove(i as int), ..mat },
            ),
            sacrificed: m.sacrificed.push(card),
            ..m
        };
        let d0 = seq![
            BoardDelta::Move(Location::Field(cp), i, Location::Sacrifice, Some(card)),
        ];
        match card.spec_sacrifice_ability() {
            Some(effs) => interp_prepend(
                d0,
                apply_effects_model(m1, effs, args),
            ),
            None => Err("No such sacrifice ability"),
        }
    }
}

/// What expending battlefield card `i` does: once per turn, flag set
/// before the ability runs.
pub open spec fn activate_expend_model(m: MasterBoardModel, i: usize, args: Seq<EffectArgument>) -> Result<
    (MasterBoardModel, Seq<BoardDelta>),
    &'static str,
> {
    let cp = m.current_player;
    let mat = cur_mat(m);

    if i >= mat.field.len() {
        Err("No such card in field")
    } else if mat.field[i as int].expend_ability_used {
        Err("Expend ability already used")
    } else {
        let card = mat.field[i as int].card;
        let d0 = seq![BoardDelta::SetExpendAbilityUsed(cp, i, true)];
        match card.spec_expend_ability() {
            Some(effs) => {
                let m1 = with_mat(
                    m,
                    cp,
                    MasterMatModel {
                        field: mat.field.update(
                            i as int,
                            CardInField {
                                expend_ability_used: true,
                                ..mat.field[i as int]
                            },
                        ),
                        ..mat
                    },
                );
                interp_prepend(d0, apply_effects_model(m1, effs, args))
            },
            None => Err("Card does not have expend ability"),
        }
    }
}

/// What an ally activation of battlefield card `i` does: it needs a
/// second battlefield card of the same faction.
pub open spec fn activate_ally_model(m: MasterBoardModel, i: usize, args: Seq<EffectArgument>) -> Result<
    (MasterBoardModel, Seq<BoardDelta>),
    &'static str,
> {
    let cp = m.current_player;
    let mat = cur_mat(m);

    if i >= mat.field.len() {
        Err("No such card in field")
    } else if mat.field[i as int].ally_ability_used {
        Err("Ally ability already used")
    } else {
        let card = mat.field[i as int].card;
        match card.spec_ally_ability() {
            Some(effs) => {
                if count_matching(
                    mat.field,
                    PerAmount::AdditionalFactionCard(card.spec_faction()),
                ) < 2 {
                    Err("No ally in field")
                } else {
                    let d0 = seq![BoardDelta::SetAllyAbilityUsed(cp, i, true)];
                    let m1 = with_mat(
                        m,
                        cp,
                        MasterMatModel {
                            field: mat.field.update(
                                i as int,
                                CardInField {
                                    ally_ability_used: true,
                                    ..mat.field[i as int]
                                },
                            ),
                            ..mat
                        },
                    );
                    interp_prepend(d0, apply_effects_model(m1, effs, args))
                }
            },
            None => Err("Card does not have ally ability"),
        }
    }
}

/// What ending the turn does: resources zeroed, played actions and
/// the hand discarded, champion flags cleared, five cards drawn, and
/// the next player seated.
pub open spec fn end_turn_model(m: MasterBoardModel) -> Result<
    (MasterBoardModel, Seq<BoardDelta>),
    &'static str,
> {
    let cp = m.current_player;
    let mat = cur_mat(m);

    let ds_gold = if mat.gold > 0 {
        seq![BoardDelta::DecreaseGold(cp, mat.gold)]
    } else {
        Seq::<BoardDelta>::empty()
    };
    let ds_combat = if mat.combat > 0 {
        seq![BoardDelta::DecreaseCombat(cp, mat.combat)]
    } else {
        Seq::<BoardDelta>::empty()
    };
    let sr = strip_non_champions(mat.field, 0, cp);
    let mat1 = MasterMatModel {
        gold: 0,
        combat: 0,
        next_action_purchase_to_top_of_deck: 0,
        next_purchase_to_top_of_deck: 0,
        next_purchase_to_hand: 0,
        field: cleared_flags(sr.0),
        discard: mat.discard + sr.1 + mat.hand,
        hand: seq![],
        ..mat
    };
    let m1 = with_mat(m, cp, mat1);
    let ds_pre = ds_gold + ds_combat + sr.2 + clear_flag_deltas(sr.0.len(), cp)
        + discard_hand_deltas(mat.hand, cp);
    match apply_effects_model(m1, seq![EffectModel::Draw(5)], Seq::<EffectArgument>::empty()) {
        Ok((m2, ds_draw)) => {
            let ncp = ((cp + 1) as usize % m.players) as usize;
            Ok(
                (
                    MasterBoardModel { current_player: ncp, ..m2 },
                    ds_pre + ds_draw + seq![BoardDelta::ChangeCurrentPlayer(ncp)],
                ),
            )
        },
        Err(e) => Err(e),
    }
}

/// What buying shop card `position` does: gold paid, the card routed
/// by the pending one-shot redirects, the slot refilled from the shop
/// pile while it lasts.
pub open spec fn purchase_from_shop_model(m: MasterBoardModel, position: usize) -> Result<
    (MasterBoardModel, Seq<BoardDelta>),
    &'static str,
> {
    let cp = m.current_player;
    let mat = cur_mat(m);

    if position >= m.shop.len() {
        Err("No such card in shop")
    } else {
        let card = m.shop[position as int];
        let cost = card.spec_cost();
        if mat.gold < cost {
            Err("Not enough gold")
        } else {
            let paid = MasterMatModel { gold: (mat.gold - cost) as usize, ..mat };
            let with_dest = if mat.next_purchase_to_hand > 0 {
                (
                    MasterMatModel {
                        next_purchase_to_hand: (mat.next_purchase_to_hand - 1) as usize,
                        hand: paid.hand.push(card),
                        ..paid
                    },
                    BoardDelta::Move(
                        Location::Shop,
                        position,
                        Location::Hand(cp),
                        Some(card),
                    ),
                )
            } else if mat.next_action_purchase_to_top_of_deck > 0
                && card.spec_is_action() {
                (
                    MasterMatModel {
                        next_action_purchase_to_top_of_deck: (
                        mat.next_action_purchase_to_top_of_deck - 1) as usize,
                        deck: paid.deck.push(card),
                        ..paid
                    },
                    BoardDelta::Move(
                        Location::Shop,
                        position,
                        Location::Deck(cp),
                        Some(card),
                    ),
                )
            } else if mat.next_purchase_to_top_of_deck > 0 {
                (
                    MasterMatModel {
                        next_purchase_to_top_of_deck: (
                        mat.next_purchase_to_top_of_deck - 1) as usize,
                        deck: paid.deck.push(card),
                        ..paid
                    },
                    BoardDelta::Move(
                        Location::Shop,
                        position,
                        Location::Deck(cp),
                        Some(card),
                    ),
                )
            } else {
                (
                    MasterMatModel { discard: paid.discard.push(card), ..paid },
                    BoardDelta::Move(
                        Location::Shop,
                        position,
                        Location::Discard(cp),
                        Some(card),
                    ),
                )
            };
            let shop1 = m.shop.remove(position as int);
            let m1 = with_mat(m, cp, with_dest.0);
            if m1.shop_deck.len() > 0 {
                let refill = m1.shop_deck.last();
                Ok(
                    (
                        MasterBoardModel {
                            shop: shop1.push(refill),
                            shop_deck: m1.shop_deck.drop_last(),
                            ..m1
                        },
                        seq![
                            BoardDelta::DecreaseGold(cp, cost),
                            with_dest.1,
                            BoardDelta::Move(
                                Location::ShopDeck,
                                0,
                                Location::Shop,
                                Some(refill),
                            ),
                        ],
                    ),
                )
            } else {
                Ok(
                    (
                        MasterBoardModel { shop: shop1, ..m1 },
                        seq![BoardDelta::DecreaseGold(cp, cost), with_dest.1],
                    ),
                )
            }
        }
    }
}

/// What buying a shared gem does.
pub open spec fn purchase_fire_gem_model(m: MasterBoardModel) -> Result<
    (MasterBoardModel, Seq<BoardDelta>),
    &'static str,
> {
    let cp = m.current_player;
    let mat = cur_mat(m);

    if m.gems.len() == 0 {
        Err("No more fire gems")
    } else {
        let cost = Card::FireGem.spec_cost();
        if mat.gold < cost {
            Err("Not enough gold")
        } else {
            let gem = m.gems.last();
            let m1 = MasterBoardModel {
                gems: m.gems.drop_last(),
                mats: m.mats.update(
                    cp as int,
                    MasterMatModel {
                        gold: (mat.gold - cost) as usize,
                        discard: mat.discard.push(gem),
                        ..mat
                    },
                ),
                ..m
            };
            Ok(
                (
                    m1,
                    seq![
                        BoardDelta::DecreaseGold(cp, cost),
                        BoardDelta::Move(
                            Location::FireGems,
                            0,
                            Location::Discard(cp),
                            Some(Card::FireGem),
                        ),
                    ],
                ),
            )
        }
    }
}

/// What a direct attack does: blocked while the target has any guard,
/// paid from combat, the target's lives clamped at zero.
pub open spec fn attack_player_model(m: MasterBoardModel, player: usize, amount: usize) -> Result<
    (MasterBoardModel, Seq<BoardDelta>),
    &'static str,
> {
    let cp = m.current_player;
    let mat = cur_mat(m);

    if player >= m.players {
        Err("No such player")
    } else if cp == player {
        Err("Player can't attack himself")
    } else if spec_has_guard(m.mats[player as int].field) {
        Err("Can't attack player player with guards")
    } else if mat.combat < amount {
        Err("Not enough combat")
    } else {
        let target = m.mats[player as int];
        let m1 = MasterBoardModel {
            mats: m.mats.update(
                cp as int,
                MasterMatModel { combat: (mat.combat - amount) as usize, ..mat },
            ).update(
                player as int,
                MasterMatModel { lives: target.lives.saturating_sub(amount), ..target },
            ),
            ..m
        };
        Ok(
            (
                m1,
                seq![
                    BoardDelta::DecreaseCombat(cp, amount),
                    BoardDelta::DecreaseHealth(player, amount),
                ],
            ),
        )
    }
}

/// What attacking a champion does: guards shield other champions, the
/// defense is paid from combat, and the champion is discarded.
pub open spec fn attack_player_champion_model(m: MasterBoardModel, player: usize, champion: usize) -> Result<
    (MasterBoardModel, Seq<BoardDelta>),
    &'static str,
> {
    let cp = m.current_player;
    let mat = cur_mat(m);

    if player >= m.players {
        Err("No such player")
    } else if cp == player {
        Err("Player can't attack his own champions")
    } else if champion >= m.mats[player as int].field.len() {
        Err("No such card in field")
    } else if !m.mats[player as int].field[champion as int].card.spec_is_champion() {
        Err("Target card is not a champion")
    } else if !m.mats[player as int].field[champion as int].card.spec_is_guard()
        && spec_has_guard(m.mats[player as int].field) {
        Err("Can't attack champion player with guards")
    } else {
        let target = m.mats[player as int];
        let card = target.field[champion as int].card;
        let def = card.spec_defense();
        if def > mat.combat {
            Err("Not enough combat")
        } else {
            let m1 = MasterBoardModel {
                mats: m.mats.update(
                    cp as int,
                    MasterMatModel { combat: (mat.combat - def) as usize, ..mat },
                ).update(
                    player as int,
                    MasterMatModel {
                        field: target.field.remove(champion as int),
                        discard: target.discard.push(card),
                        ..target
                    },
                ),
                ..m
            };
            Ok(
                (
                    m1,
                    seq![
                        BoardDelta::DecreaseCombat(cp, def),
                        BoardDelta::Move(
                            Location::Field(player),
                            champion,
                            Location::Discard(player),
                            Some(card),
                        ),
                    ],
                ),
            )
        }
    }
}

} // verus!
verus! {

/// Whether any card on this battlefield is a guard.
fn field_has_guard(field: &Vec<CardInField>) -> (r: bool)
    ensures
        r == spec_has_guard(field@),
{
    let mut i: usize = 0;
    while i < field.len()
        invariant
            i <= field.len(),
            (forall|k: int| 0 <= k < i ==> !field@[k].card.spec_is_guard()),
        decreases field.len() - i,
    {
        if field[i].card.is_guard() {
            return true;
        }
        i = i + 1;
    }
    false
}

/// How many battlefield cards share the given faction.
fn count_faction(field: &Vec<CardInField>, f: Faction) -> (r: usize)
    ensures
        r == count_matching(field@, PerAmount::AdditionalFactionCard(f)),
{
    let mut count: usize = 0;
    let mut i: usize = 0;
    while i < field.len()
        invariant
            i <= field.len(),
            count <= i,
            count == count_matching(
                field@.subrange(0, i as int),
                PerAmount::AdditionalFactionCard(f),
            ),
        decreases field.len() - i,
    {
        if field[i].card.faction() == f {
            count = count + 1;
        }
        i = i + 1;
        proof {
            assert(field@.subrange(0, i as int).drop_last() =~= field@.subrange(0, i - 1));
            assert(field@.subrange(0, i as int).last() == field@[i - 1]);
        }
    }
    proof {
        assert(field@.subrange(0, field@.len() as int) =~= field@);
    }
    count
}

impl MasterBoard {
    /// How many players are still alive.
    fn count_alive_players(&self) -> (r: usize)
        ensures
            r == count_alive(self@.mats),
    {
        let mut count: usize = 0;
        let mut i: usize = 0;
        while i < self.mats.len()
            invariant
                i <= self@.mats.len(),
                count <= i,
                count == count_alive(self@.mats.subrange(0, i as int)),
            decreases self@.mats.len() - i,
        {
            if self.mats[i].is_alive() {
                count = count + 1;
            }
            i = i + 1;
            proof {
                assert(self@.mats.subrange(0, i as int).drop_last() =~= self@.mats.subrange(
                    0,
                    i - 1,
                ));
                assert(self@.mats.subrange(0, i as int).last() == self@.mats[i - 1]);
            }
        }
        proof {
            assert(self@.mats.subrange(0, self@.mats.len() as int) =~= self@.mats);
        }
        count
    }

    /// Zeroes the acting player's turn resources and one-shot purchase
    /// redirects, recording the counter deltas.
    fn zero_for_turn_end(&mut self, deltas: &mut Vec<BoardDelta>)
        requires
            wf(old(self)@),
        ensures
            wf(final(self)@),
            final(self)@ == with_mat(
                old(self)@,
                old(self)@.current_player,
                (MasterMatModel {
                    gold: 0,
                    combat: 0,
                    next_action_purchase_to_top_of_deck: 0,
                    next_purchase_to_top_of_deck: 0,
                    next_purchase_to_hand: 0,
                    ..cur_mat(old(self)@)
                }),
            ),
            final(deltas)@ == old(deltas)@ + (if cur_mat(old(self)@).gold > 0 {
                seq![BoardDelta::DecreaseGold(old(self)@.current_player, cur_mat(old(self)@).gold)]
            } else {
                Seq::<BoardDelta>::empty()
            }) + (if cur_mat(old(self)@).combat > 0 {
                seq![
                    BoardDelta::DecreaseCombat(
                        old(self)@.current_player,
                        cur_mat(old(self)@).combat,
                    ),
                ]
            } else {
                Seq::<BoardDelta>::empty()
            }),
    {
        let ghost m0 = self@;
        let ghost deltas0 = deltas@;
        let cp = self.current_player;
        let gold = self.mats[cp].gold;
        let combat = self.mats[cp].combat;
        if gold > 0 {
            deltas.push(BoardDelta::DecreaseGold(cp, gold));
        }
        if combat > 0 {
            deltas.push(BoardDelta::DecreaseCombat(cp, combat));
        }
        {
            let m = &mut self.mats[cp];
            m.gold = 0;
            m.combat = 0;
            m.next_action_purchase_to_top_of_deck = 0;
            m.next_purchase_to_top_of_deck = 0;
            m.next_purchase_to_hand = 0;
        }
        proof {
            assert(self@ =~~= with_mat(
                m0,
                cp,
                MasterMatModel {
                    gold: 0,
                    combat: 0,
                    next_action_purchase_to_top_of_deck: 0,
                    next_purchase_to_top_of_deck: 0,
                    next_purchase_to_hand: 0,
                    ..cur_mat(m0)
                },
            ));
            lemma_mats_count_update(m0.mats, cp as int, cur_mat(self@));
            assert(deltas@ =~= deltas0 + (if cur_mat(m0).gold > 0 {
                seq![BoardDelta::DecreaseGold(cp, cur_mat(m0).gold)]
            } else {
                Seq::<BoardDelta>::empty()
            }) + (if cur_mat(m0).combat > 0 {
                seq![BoardDelta::DecreaseCombat(cp, cur_mat(m0).combat)]
            } else {
                Seq::<BoardDelta>::empty()
            }));
        }
    }

    /// Moves every non-champion off the acting player's battlefield to
    /// their discard pile, recording one move delta per card.
    #[verifier::rlimit(100)]
    fn discard_played_cards(&mut self, deltas: &mut Vec<BoardDelta>)
        requires
            wf(old(self)@),
        ensures
            wf(final(self)@),
            ({
                let sr = strip_non_champions(
                    cur_mat(old(self)@).field,
                    0,
                    old(self)@.current_player,
                );
                final(self)@ == with_mat(
                    old(self)@,
                    old(self)@.current_player,
                    (MasterMatModel {
                        field: sr.0,
                        discard: cur_mat(old(self)@).discard + sr.1,
                        ..cur_mat(old(self)@)
                    }),
                ) && final(deltas)@ == old(deltas)@ + sr.2
            }),
    {
        let ghost m0 = self@;
        let ghost mat0 = cur_mat(m0);
        let ghost deltas0 = deltas@;
        let cp = self.current_player;
        let ghost goal = strip_non_champions(mat0.field, 0, cp);
        let mut i: usize = 0;
        while i < self.mats[cp].field.len()
            invariant
                wf(self@),
                cp == m0.current_player < self@.mats.len(),
                self@.mats.len() == m0.mats.len(),
                (forall|k: int|
                    0 <= k < m0.mats.len() && k != cp ==> self@.mats[k] == m0.mats[k]),
                self@.mats[cp as int] == (MasterMatModel {
                    field: self@.mats[cp as int].field,
                    discard: self@.mats[cp as int].discard,
                    ..mat0
                }),
                self@ == (MasterBoardModel { mats: self@.mats, ..m0 }),
                i <= self@.mats[cp as int].field.len(),
                (forall|k: int|
                    0 <= k < i ==> self@.mats[cp as int].field[k].card.spec_is_champion()),
                deltas0.len() <= deltas@.len(),
                mat0.discard.len() <= self@.mats[cp as int].discard.len(),
                deltas@.subrange(0, deltas0.len() as int) =~= deltas0,
                self@.mats[cp as int].discard.subrange(0, mat0.discard.len() as int)
                    =~= mat0.discard,
                self@.mats[cp as int].field.len() + self@.mats[cp as int].discard.len()
                    == mat0.field.len() + mat0.discard.len(),
                goal == ({
                    let r = strip_non_champions(self@.mats[cp as int].field, i as nat, cp);
                    (
                        r.0,
                        self@.mats[cp as int].discard.subrange(
                            mat0.discard.len() as int,
                            self@.mats[cp as int].discard.len() as int,
                        ) + r.1,
                        deltas@.subrange(deltas0.len() as int, deltas@.len() as int) + r.2,
                    )
                }),
            decreases self@.mats[cp as int].field.len() - i,
        {
            let is_champ = self.mats[cp].field[i].card.is_champion();
            if !is_champ {
                let cif = {
                    let m = &mut self.mats[cp];
                    m.field.remove(i)
                };
                deltas.push(
                    BoardDelta::Move(Location::Field(cp), i, Location::Discard(cp), Some(cif.card)),
                );
                {
                    let m = &mut self.mats[cp];
                    m.discard.push(cif.card);
                }
                proof {
                    assert(self@.mats =~= m0.mats.update(cp as int, self@.mats[cp as int]));
                    assert(mat_card_count(self@.mats[cp as int]) == mat_card_count(mat0));
                    lemma_mats_count_update(m0.mats, cp as int, self@.mats[cp as int]);
                    assert(deltas@.subrange(0, deltas0.len() as int) =~= deltas0);
                    assert(self@.mats[cp as int].discard.subrange(0, mat0.discard.len() as int)
                        =~= mat0.discard);
                    let dnew = self@.mats[cp as int].discard.subrange(
                        mat0.discard.len() as int,
                        self@.mats[cp as int].discard.len() as int,
                    );
                    let anew = deltas@.subrange(deltas0.len() as int, deltas@.len() as int);
                    let r2 = strip_non_champions(self@.mats[cp as int].field, i as nat, cp);
                    assert(goal.1 =~= dnew + r2.1);
                    assert(goal.2 =~= anew + r2.2);
                }
            } else {
                i = i + 1;
            }
        }
        proof {
            let r = strip_non_champions(self@.mats[cp as int].field, i as nat, cp);
            assert(r.0 == self@.mats[cp as int].field && r.1 =~= Seq::<Card>::empty() && r.2
                =~= Seq::<BoardDelta>::empty());
            assert(goal.1 =~= self@.mats[cp as int].discard.subrange(
                mat0.discard.len() as int,
                self@.mats[cp as int].discard.len() as int,
            ));
            assert(goal.2 =~= deltas@.subrange(deltas0.len() as int, deltas@.len() as int));
            assert(self@ =~~= with_mat(
                m0,
                cp,
                MasterMatModel { field: goal.0, discard: mat0.discard + goal.1, ..mat0 },
            ));
            assert(deltas@ =~= deltas0 + goal.2);
        }
    }

    /// Clears both per-turn ability flags of every remaining
    /// battlefield card, recording the flag deltas in position order.
    fn clear_champion_flags(&mut self, deltas: &mut Vec<BoardDelta>)
        requires
            wf(old(self)@),
        ensures
            wf(final(self)@),
            final(self)@ == with_mat(
                old(self)@,
                old(self)@.current_player,
                (MasterMatModel {
                    field: cleared_flags(cur_mat(old(self)@).field),
                    ..cur_mat(old(self)@)
                }),
            ),
            final(deltas)@ == old(deltas)@ + clear_flag_deltas(
                cur_mat(old(self)@).field.len(),
                old(self)@.current_player,
            ),
    {
        let ghost m0 = self@;
        let ghost mat0 = cur_mat(m0);
        let ghost deltas0 = deltas@;
        let cp = self.current_player;
        let mut i: usize = 0;
        while i < self.mats[cp].field.len()
            invariant
                wf(self@),
                cp == m0.current_player < self@.mats.len(),
                self@.mats.len() == m0.mats.len(),
                (forall|k: int|
                    0 <= k < m0.mats.len() && k != cp ==> self@.mats[k] == m0.mats[k]),
                self@.mats[cp as int] == (MasterMatModel {
                    field: self@.mats[cp as int].field,
                    ..mat0
                }),
                self@ == (MasterBoardModel { mats: self@.mats, ..m0 }),
                i <= mat0.field.len(),
                self@.mats[cp as int].field.len() == mat0.field.len(),
                (forall|k: int|
                    0 <= k < i ==> self@.mats[cp as int].field[k] == (CardInField {
                        expend_ability_used: false,
                        ally_ability_used: false,
                        ..mat0.field[k]
                    })),
                (forall|k: int|
                    i <= k < mat0.field.len() ==> self@.mats[cp as int].field[k]
                        == mat0.field[k]),
                deltas@ =~= deltas0 + clear_flag_deltas(i as nat, cp),
            decreases mat0.field.len() - i,
        {
            let mut cif = self.mats[cp].field[i];
            cif.expend_ability_used = false;
            cif.ally_ability_used = false;
            {
                let m = &mut self.mats[cp];
                m.field.set(i, cif);
            }
            deltas.push(BoardDelta::SetExpendAbilityUsed(cp, i, false));
            deltas.push(BoardDelta::SetAllyAbilityUsed(cp, i, false));
            i = i + 1;
            proof {
                assert(self@.mats =~= m0.mats.update(cp as int, self@.mats[cp as int]));
                assert(mat_card_count(self@.mats[cp as int]) == mat_card_count(mat0));
                lemma_mats_count_update(m0.mats, cp as int, self@.mats[cp as int]);
                assert(deltas@ =~= deltas0 + clear_flag_deltas(i as nat, cp));
            }
        }
        proof {
            assert(self@.mats[cp as int].field =~= cleared_flags(mat0.field));
            assert(self@ =~~= with_mat(
                m0,
                cp,
                MasterMatModel { field: cleared_flags(mat0.field), ..mat0 },
            ));
            assert(deltas@ =~= deltas0 + clear_flag_deltas(mat0.field.len(), cp));
        }
    }

    /// Moves the acting player's whole hand to their discard pile,
    /// recording one move delta per card.
    fn discard_hand(&mut self, deltas: &mut Vec<BoardDelta>)
        requires
            wf(old(self)@),
        ensures
            wf(final(self)@),
            final(self)@ == with_mat(
                old(self)@,
                old(self)@.current_player,
                (MasterMatModel {
                    hand: seq![],
                    discard: cur_mat(old(self)@).discard + cur_mat(old(self)@).hand,
                    ..cur_mat(old(self)@)
                }),
            ),
            final(deltas)@ == old(deltas)@ + discard_hand_deltas(
                cur_mat(old(self)@).hand,
                old(self)@.current_player,
            ),
    {
        let ghost m0 = self@;
        let ghost mat0 = cur_mat(m0);
        let ghost deltas0 = deltas@;
        let cp = self.current_player;
        let ghost mut i: nat = 0;
        while self.mats[cp].hand.len() > 0
            invariant
                wf(self@),
                cp == m0.current_player < self@.mats.len(),
                self@.mats.len() == m0.mats.len(),
                (forall|k: int|
                    0 <= k < m0.mats.len() && k != cp ==> self@.mats[k] == m0.mats[k]),
                self@.mats[cp as int] == (MasterMatModel {
                    hand: self@.mats[cp as int].hand,
                    discard: self@.mats[cp as int].discard,
                    ..mat0
                }),
                self@ == (MasterBoardModel { mats: self@.mats, ..m0 }),
                i <= mat0.hand.len(),
                self@.mats[cp as int].hand =~= mat0.hand.subrange(
                    i as int,
                    mat0.hand.len() as int,
                ),
                self@.mats[cp as int].discard =~= mat0.discard + mat0.hand.subrange(0, i as int),
                deltas@ =~= deltas0 + discard_hand_deltas(mat0.hand.subrange(0, i as int), cp),
            decreases self@.mats[cp as int].hand.len(),
        {
            let card = {
                let m = &mut self.mats[cp];
                m.hand.remove(0)
            };
            deltas.push(
                BoardDelta::Move(Location::Hand(cp), 0, Location::Discard(cp), Some(card)),
            );
            {
                let m = &mut self.mats[cp];
                m.discard.push(card);
            }
            proof {
                i = i + 1;
            }
            proof {
                assert(self@.mats =~= m0.mats.update(cp as int, self@.mats[cp as int]));
                assert(mat_card_count(self@.mats[cp as int]) == mat_card_count(mat0));
                lemma_mats_count_update(m0.mats, cp as int, self@.mats[cp as int]);
                assert(self@.mats[cp as int].hand =~= mat0.hand.subrange(
                    i as int,
                    mat0.hand.len() as int,
                ));
                assert(self@.mats[cp as int].discard =~= mat0.discard + mat0.hand.subrange(
                    0,
                    i as int,
                ));
                assert(deltas@ =~= deltas0 + discard_hand_deltas(
                    mat0.hand.subrange(0, i as int),
                    cp,
                ));
            }
        }
        proof {
            assert(mat0.hand.subrange(0, i as int) =~= mat0.hand);
            assert(self@ =~~= with_mat(
                m0,
                cp,
                MasterMatModel {
                    hand: seq![],
                    discard: mat0.discard + mat0.hand,
                    ..mat0
                },
            ));
            assert(deltas@ =~= deltas0 + discard_hand_deltas(mat0.hand, cp));
        }
    }
}

} // verus!
verus! {

impl MasterBoard {
    /// Validates and applies one player action against a disposable
    /// copy of the board, committing the copy only on full success; on
    /// any error the board is untouched. Returns the ordered deltas
    /// recording every mutation of a successful action.
    #[verifier::rlimit(100)]
    pub fn do_action(&mut self, action: PlayerAction) -> (r: Result<
        Vec<BoardDelta>,
        &'static str,
    >)
        requires
            wf(old(self)@),
        ensures
            wf(final(self)@),
            (match do_action_model(old(self)@, action) {
                Ok(pair) => r matches Ok(v) && v@ == pair.1 && final(self)@ == pair.0,
                Err(e) => r matches Err(e2) && e2 == e && final(self)@ == old(self)@,
            }),
    {
        let ghost m0 = self@;
        if self.game_over {
            return Err("The game is already over");
        }
        let mut state = self.clone();
        let mut deltas: Vec<BoardDelta> = Vec::new();
        let cp = state.current_player;
        let ghost mat0 = cur_mat(m0);
        if state.mats[cp].must_discard > 0 {
            if let PlayerAction::Discard(card_in_hand) = action {
                if card_in_hand >= state.mats[cp].hand.len() {
                    return Err("No such card in hand");
                }
                let card = {
                    let m = &mut state.mats[cp];
                    m.hand.remove(card_in_hand)
                };
                deltas.push(
                    BoardDelta::Move(
                        Location::Hand(cp),
                        card_in_hand,
                        Location::Discard(cp),
                        Some(card),
                    ),
                );
                {
                    let m = &mut state.mats[cp];
                    m.discard.push(card);
                    m.must_discard = m.must_discard - 1;
                }
                deltas.push(BoardDelta::DecreaseDiscardAmount(cp, 1));
                proof {
                    assert(state@ =~~= with_mat(
                        m0,
                        cp,
                        MasterMatModel {
                            hand: mat0.hand.remove(card_in_hand as int),
                            discard: mat0.discard.push(card),
                            must_discard: (mat0.must_discard - 1) as usize,
                            ..mat0
                        },
                    ));
                    lemma_mats_count_update(m0.mats, cp as int, cur_mat(state@));
                    assert(deltas@ =~= seq![
                        BoardDelta::Move(
                            Location::Hand(cp),
                            card_in_hand,
                            Location::Discard(cp),
                            Some(card),
                        ),
                        BoardDelta::DecreaseDiscardAmount(cp, 1),
                    ]);
                }
                *self = state;
                return Ok(deltas);
            } else {
                return Err("Must discard first");
            }
        }
        match action {
            PlayerAction::Play(position, effect_args) => {
                let r = state.act_play(position, effect_args, &mut deltas);
                if let Err(e) = r {
                    return Err(e);
                }
            },
            PlayerAction::ActivateSacrificeAbility(card_in_field, effect_args) => {
                let r = state.act_sacrifice_ability(card_in_field, effect_args, &mut deltas);
                if let Err(e) = r {
                    return Err(e);
                }
            },
            PlayerAction::ActivateExpendAbility(card_in_field, effect_args) => {
                let r = state.act_expend_ability(card_in_field, effect_args, &mut deltas);
                if let Err(e) = r {
                    return Err(e);
                }
            },
            PlayerAction::ActivateAllyAbility(card_in_field, effect_args) => {
                let r = state.act_ally_ability(card_in_field, effect_args, &mut deltas);
                if let Err(e) = r {
                    return Err(e);
                }
            },
            PlayerAction::EndTurn => {
                let r = state.act_end_turn(&mut deltas);
                if let Err(e) = r {
                    return Err(e);
                }
            },
            PlayerAction::PurchaseFromShop(position) => {
                let r = state.act_purchase_from_shop(position, &mut deltas);
                if let Err(e) = r {
                    return Err(e);
                }
            },
            PlayerAction::PurchaseFireGem => {
                let r = state.act_purchase_fire_gem(&mut deltas);
                if let Err(e) = r {
                    return Err(e);
                }
            },
            PlayerAction::AttackPlayer(player, amount) => {
                let r = state.act_attack_player(player, amount, &mut deltas);
                if let Err(e) = r {
                    return Err(e);
                }
            },
            PlayerAction::AttackPlayerChampion(player, champion) => {
                let r = state.act_attack_player_champion(player, champion, &mut deltas);
                if let Err(e) = r {
                    return Err(e);
                }
            },
            _ => {
                return Err("Unsupported action");
            },
        }
        proof {
            assert(action_step_model(m0, action) matches Ok(pair) && state@ == pair.0 && deltas@
                == pair.1);
        }
        if state.count_alive_players() == 1 {
            deltas.push(BoardDelta::GameOver);
            state.game_over = true;
            proof {
                assert(state@ =~~= (MasterBoardModel { game_over: true, ..state@ }));
            }
        }
        proof {
            assert(do_action_model(m0, action) matches Ok(pair) && state@ == pair.0 && deltas@
                == pair.1);
        }
        *self = state;
        Ok(deltas)
    }
}

} // verus!

verus! {

impl MasterBoard {
    /// One action arm, applied to this (working) board.
    #[verifier::rlimit(100)]
    fn act_play(&mut self, position: usize, effect_args: Vec<EffectArgument>, deltas: &mut Vec<BoardDelta>) -> (r: Result<(), &'static str>)
        requires
            wf(old(self)@),
        ensures
            wf(final(self)@),
            (match play_model(old(self)@, position, effect_args@) {
                Ok(pair) => r matches Ok(u) && final(self)@ == pair.0 && final(deltas)@ == old(
                    deltas,
                )@ + pair.1,
                Err(e) => r matches Err(e2) && e2 == e,
            }),
    {
        let ghost m0 = self@;
        let ghost mat0 = cur_mat(m0);
        let ghost deltas_entry = deltas@;
        let cp = self.current_player;

            if position >= self.mats[cp].hand.len() {
                return Err("No such card in hand");
            }
            let card = {
                let m = &mut self.mats[cp];
                m.hand.remove(position)
            };
            {
                let m = &mut self.mats[cp];
                m.field.push(CardInField::new(card));
            }
            deltas.push(
                BoardDelta::Move(Location::Hand(cp), position, Location::Field(cp), Some(card)),
            );
            proof {
                assert(self@ =~~= with_mat(
                    m0,
                    cp,
                    MasterMatModel {
                        hand: mat0.hand.remove(position as int),
                        field: mat0.field.push(
                            CardInField {
                                card,
                                expend_ability_used: false,
                                ally_ability_used: false,
                            },
                        ),
                        ..mat0
                    },
                ));
                lemma_mats_count_update(m0.mats, cp as int, cur_mat(self@));
            }
            if let Some(effects) = card.primary_ability() {
                let ghost d0 = deltas@;
                match self.apply_effects(effects, effect_args) {
                    Ok(mut ds2) => {
                        proof {
                            assert(deltas@ + ds2@ =~= d0 + ds2@);
                        }
                        deltas.append(&mut ds2);
                    },
                    Err(e) => {
                        return Err(e);
                    },
                }
            }
            proof {
                assert(play_model(m0, position, effect_args@) matches Ok(pair) && self@ == pair.0
                && deltas@ =~= deltas_entry + pair.1);
            }
        Ok(())
    }

    /// One action arm, applied to this (working) board.
    #[verifier::rlimit(100)]
    fn act_sacrifice_ability(&mut self, card_in_field: usize, effect_args: Vec<EffectArgument>, deltas: &mut Vec<BoardDelta>) -> (r: Result<(), &'static str>)
        requires
            wf(old(self)@),
        ensures
            wf(final(self)@),
            (match activate_sacrifice_model(old(self)@, card_in_field, effect_args@) {
                Ok(pair) => r matches Ok(u) && final(self)@ == pair.0 && final(deltas)@ == old(
                    deltas,
                )@ + pair.1,
                Err(e) => r matches Err(e2) && e2 == e,
            }),
    {
        let ghost m0 = self@;
        let ghost mat0 = cur_mat(m0);
        let ghost deltas_entry = deltas@;
        let cp = self.current_player;

            if card_in_field >= self.mats[cp].field.len() {
                return Err("No such card in field");
            }
            let cif = {
                let m = &mut self.mats[cp];
                m.field.remove(card_in_field)
            };
            let card = cif.card;
            self.sacrificed.push(card);
            deltas.push(
                BoardDelta::Move(
                    Location::Field(cp),
                    card_in_field,
                    Location::Sacrifice,
                    Some(card),
                ),
            );
            proof {
                assert(self@ =~~= (MasterBoardModel {
                    mats: m0.mats.update(
                        cp as int,
                        MasterMatModel {
                            field: mat0.field.remove(card_in_field as int),
                            ..mat0
                        },
                    ),
                    sacrificed: m0.sacrificed.push(card),
                    ..m0
                }));
                lemma_mats_count_update(m0.mats, cp as int, cur_mat(self@));
            }
            if let Some(effects) = card.sacrifice_ability() {
                let ghost d0 = deltas@;
                match self.apply_effects(effects, effect_args) {
                    Ok(mut ds2) => {
                        proof {
                            assert(deltas@ + ds2@ =~= d0 + ds2@);
                        }
                        deltas.append(&mut ds2);
                    },
                    Err(e) => {
                        return Err(e);
                    },
                }
            } else {
                return Err("No such sacrifice ability");
            }
            proof {
                assert(activate_sacrifice_model(m0, card_in_field, effect_args@) matches Ok(pair) && self@ == pair.0
                && deltas@ =~= deltas_entry + pair.1);
            }
        Ok(())
    }

    /// One action arm, applied to this (working) board.
    #[verifier::rlimit(100)]
    fn act_expend_ability(&mut self, card_in_field: usize, effect_args: Vec<EffectArgument>, deltas: &mut Vec<BoardDelta>) -> (r: Result<(), &'static str>)
        requires
            wf(old(self)@),
        ensures
            wf(final(self)@),
            (match activate_expend_model(old(self)@, card_in_field, effect_args@) {
                Ok(pair) => r matches Ok(u) && final(self)@ == pair.0 && final(deltas)@ == old(
                    deltas,
                )@ + pair.1,
                Err(e) => r matches Err(e2) && e2 == e,
            }),
    {
        let ghost m0 = self@;
        let ghost mat0 = cur_mat(m0);
        let ghost deltas_entry = deltas@;
        let cp = self.current_player;

            if card_in_field >= self.mats[cp].field.len() {
                return Err("No such card in field");
            }
            if self.mats[cp].field[card_in_field].expend_ability_used {
                return Err("Expend ability already used");
            }
            let card = self.mats[cp].field[card_in_field].card;
            deltas.push(BoardDelta::SetExpendAbilityUsed(cp, card_in_field, true));
            if let Some(effects) = card.expend_ability() {
                let mut cif = self.mats[cp].field[card_in_field];
                cif.expend_ability_used = true;
                {
                    let m = &mut self.mats[cp];
                    m.field.set(card_in_field, cif);
                }
                proof {
                    assert(self@ =~~= with_mat(
                        m0,
                        cp,
                        MasterMatModel {
                            field: mat0.field.update(
                                card_in_field as int,
                                CardInField {
                                    expend_ability_used: true,
                                    ..mat0.field[card_in_field as int]
                                },
                            ),
                            ..mat0
                        },
                    ));
                    lemma_mats_count_update(m0.mats, cp as int, cur_mat(self@));
                }
                let ghost d0 = deltas@;
                match self.apply_effects(effects, effect_args) {
                    Ok(mut ds2) => {
                        proof {
                            assert(deltas@ + ds2@ =~= d0 + ds2@);
                        }
                        deltas.append(&mut ds2);
                    },
                    Err(e) => {
                        return Err(e);
                    },
                }
            } else {
                return Err("Card does not have expend ability");
            }
            proof {
                assert(activate_expend_model(m0, card_in_field, effect_args@) matches Ok(pair) && self@ == pair.0
                && deltas@ =~= deltas_entry + pair.1);
            }
        Ok(())
    }

    /// One action arm, applied to this (working) board.
    #[verifier::rlimit(100)]
    fn act_ally_ability(&mut self, card_in_field: usize, effect_args: Vec<EffectArgument>, deltas: &mut Vec<BoardDelta>) -> (r: Result<(), &'static str>)
        requires
            wf(old(self)@),
        ensures
            wf(final(self)@),
            (match activate_ally_model(old(self)@, card_in_field, effect_args@) {
                Ok(pair) => r matches Ok(u) && final(self)@ == pair.0 && final(deltas)@ == old(
                    deltas,
                )@ + pair.1,
                Err(e) => r matches Err(e2) && e2 == e,
            }),
    {
        let ghost m0 = self@;
        let ghost mat0 = cur_mat(m0);
        let ghost deltas_entry = deltas@;
        let cp = self.current_player;

            if card_in_field >= self.mats[cp].field.len() {
                return Err("No such card in field");
            }
            if self.mats[cp].field[card_in_field].ally_ability_used {
                return Err("Ally ability already used");
            }
            let card = self.mats[cp].field[card_in_field].card;
            if let Some(effects) = card.ally_ability() {
                if count_faction(&self.mats[cp].field, card.faction()) < 2 {
                    return Err("No ally in field");
                }
                deltas.push(BoardDelta::SetAllyAbilityUsed(cp, card_in_field, true));
                let mut cif = self.mats[cp].field[card_in_field];
                cif.ally_ability_used = true;
                {
                    let m = &mut self.mats[cp];
                    m.field.set(card_in_field, cif);
                }
                proof {
                    assert(self@ =~~= with_mat(
                        m0,
                        cp,
                        MasterMatModel {
                            field: mat0.field.update(
                                card_in_field as int,
                                CardInField {
                                    ally_ability_used: true,
                                    ..mat0.field[card_in_field as int]
                                },
                            ),
                            ..mat0
                        },
                    ));
                    lemma_mats_count_update(m0.mats, cp as int, cur_mat(self@));
                }
                let ghost d0 = deltas@;
                match self.apply_effects(effects, effect_args) {
                    Ok(mut ds2) => {
                        proof {
                            assert(deltas@ + ds2@ =~= d0 + ds2@);
                        }
                        deltas.append(&mut ds2);
                    },
                    Err(e) => {
                        return Err(e);
                    },
                }
            } else {
                return Err("Card does not have ally ability");
            }
            proof {
                assert(activate_ally_model(m0, card_in_field, effect_args@) matches Ok(pair) && self@ == pair.0
                && deltas@ =~= deltas_entry + pair.1);
            }
        Ok(())
    }

    /// One action arm, applied to this (working) board.
    #[verifier::rlimit(100)]
    fn act_end_turn(&mut self, deltas: &mut Vec<BoardDelta>) -> (r: Result<(), &'static str>)
        requires
            wf(old(self)@),
        ensures
            wf(final(self)@),
            (match end_turn_model(old(self)@) {
                Ok(pair) => r matches Ok(u) && final(self)@ == pair.0 && final(deltas)@ == old(
                    deltas,
                )@ + pair.1,
                Err(e) => r matches Err(e2) && e2 == e,
            }),
    {
        let ghost m0 = self@;
        let ghost mat0 = cur_mat(m0);
        let ghost deltas_entry = deltas@;
        let cp = self.current_player;
        let nplayers = self.players;

            self.zero_for_turn_end(deltas);
            let ghost d1 = deltas@;
            let ghost s1 = self@;
            self.discard_played_cards(deltas);
            let ghost d2 = deltas@;
            let ghost s2 = self@;
            self.clear_champion_flags(deltas);
            let ghost d3 = deltas@;
            let ghost s3 = self@;
            self.discard_hand(deltas);
            proof {
                let sr = strip_non_champions(mat0.field, 0, cp);
                assert(self@ =~~= with_mat(
                    m0,
                    cp,
                    MasterMatModel {
                        gold: 0,
                        combat: 0,
                        next_action_purchase_to_top_of_deck: 0,
                        next_purchase_to_top_of_deck: 0,
                        next_purchase_to_hand: 0,
                        field: cleared_flags(sr.0),
                        discard: mat0.discard + sr.1 + mat0.hand,
                        hand: seq![],
                        ..mat0
                    },
                ));
            }
            let ghost d_pre = deltas@;
            let draw = vec![Effect::Draw(5)];
            proof {
                assert(effects_model(draw@) =~= seq![EffectModel::Draw(5)]);
            }
            match self.apply_effects(draw, Vec::new()) {
                Ok(mut ds2) => {
                    proof {
                        assert(deltas@ + ds2@ =~= d_pre + ds2@);
                    }
                    deltas.append(&mut ds2);
                },
                Err(e) => {
                    return Err(e);
                },
            }
            let ncp = (cp + 1) % nplayers;
            self.current_player = ncp;
            deltas.push(BoardDelta::ChangeCurrentPlayer(ncp));
            proof {
                let sr = strip_non_champions(mat0.field, 0, cp);
                let ds_gold = if mat0.gold > 0 {
                    seq![BoardDelta::DecreaseGold(cp, mat0.gold)]
                } else {
                    Seq::<BoardDelta>::empty()
                };
                let ds_combat = if mat0.combat > 0 {
                    seq![BoardDelta::DecreaseCombat(cp, mat0.combat)]
                } else {
                    Seq::<BoardDelta>::empty()
                };
                let ds_pre = ds_gold + ds_combat + sr.2 + clear_flag_deltas(sr.0.len(), cp)
                    + discard_hand_deltas(mat0.hand, cp);
                assert(d1 =~= deltas_entry + ds_gold + ds_combat);
                assert(cur_mat(s1).field == mat0.field);
                assert(d2 =~= d1 + sr.2);
                assert(cur_mat(s2).field == sr.0);
                assert(d3 =~= d2 + clear_flag_deltas(sr.0.len(), cp));
                assert(cur_mat(s3).hand == mat0.hand);
                assert(d_pre =~= d3 + discard_hand_deltas(mat0.hand, cp));
                assert(d_pre =~= deltas_entry + ds_pre);
                assert(end_turn_model(m0) matches Ok(pair) && self@ =~~= pair.0
                && deltas@ =~= deltas_entry + pair.1);
            }
        Ok(())
    }
}

} // verus!
verus! {

impl MasterBoard {
    /// One action arm, applied to this (working) board.
    #[verifier::rlimit(100)]
    fn act_purchase_from_shop(&mut self, position: usize, deltas: &mut Vec<BoardDelta>) -> (r: Result<(), &'static str>)
        requires
            wf(old(self)@),
        ensures
            wf(final(self)@),
            (match purchase_from_shop_model(old(self)@, position) {
                Ok(pair) => r matches Ok(u) && final(self)@ == pair.0 && final(deltas)@ == old(
                    deltas,
                )@ + pair.1,
                Err(e) => r matches Err(e2) && e2 == e,
            }),
    {
        let ghost m0 = self@;
        let ghost mat0 = cur_mat(m0);
        let ghost deltas_entry = deltas@;
        let cp = self.current_player;

            if position >= self.shop.len() {
                return Err("No such card in shop");
            }
            let card = self.shop[position];
            let cost = card.cost();
            if self.mats[cp].gold < cost {
                return Err("Not enough gold");
            }
            {
                let m = &mut self.mats[cp];
                m.gold = m.gold - cost;
            }
            deltas.push(BoardDelta::DecreaseGold(cp, cost));
            if self.mats[cp].next_purchase_to_hand > 0 {
                let m = &mut self.mats[cp];
                m.next_purchase_to_hand = m.next_purchase_to_hand - 1;
                m.hand.push(card);
                deltas.push(
                    BoardDelta::Move(Location::Shop, position, Location::Hand(cp), Some(card)),
                );
            } else if self.mats[cp].next_action_purchase_to_top_of_deck > 0
                && card.is_action() {
                let m = &mut self.mats[cp];
                m.next_action_purchase_to_top_of_deck = m.next_action_purchase_to_top_of_deck
                    - 1;
                m.deck.push(card);
                deltas.push(
                    BoardDelta::Move(Location::Shop, position, Location::Deck(cp), Some(card)),
                );
            } else if self.mats[cp].next_purchase_to_top_of_deck > 0 {
                let m = &mut self.mats[cp];
                m.next_purchase_to_top_of_deck = m.next_purchase_to_top_of_deck - 1;
                m.deck.push(card);
                deltas.push(
                    BoardDelta::Move(Location::Shop, position, Location::Deck(cp), Some(card)),
                );
            } else {
                let m = &mut self.mats[cp];
                m.discard.push(card);
                deltas.push(
                    BoardDelta::Move(
                        Location::Shop,
                        position,
                        Location::Discard(cp),
                        Some(card),
                    ),
                );
            }
            self.shop.remove(position);
            if let Some(refill) = self.shop_deck.pop() {
                self.shop.push(refill);
                deltas.push(
                    BoardDelta::Move(Location::ShopDeck, 0, Location::Shop, Some(refill)),
                );
            }
            proof {
                lemma_mats_count_update(m0.mats, cp as int, cur_mat(self@));
                assert(purchase_from_shop_model(m0, position) matches Ok(pair) && self@ =~~= pair.0
                && deltas@ =~= deltas_entry + pair.1);
            }
        Ok(())
    }

    /// One action arm, applied to this (working) board.
    #[verifier::rlimit(100)]
    fn act_purchase_fire_gem(&mut self, deltas: &mut Vec<BoardDelta>) -> (r: Result<(), &'static str>)
        requires
            wf(old(self)@),
        ensures
            wf(final(self)@),
            (match purchase_fire_gem_model(old(self)@) {
                Ok(pair) => r matches Ok(u) && final(self)@ == pair.0 && final(deltas)@ == old(
                    deltas,
                )@ + pair.1,
                Err(e) => r matches Err(e2) && e2 == e,
            }),
    {
        let ghost m0 = self@;
        let ghost mat0 = cur_mat(m0);
        let ghost deltas_entry = deltas@;
        let cp = self.current_player;

            if self.gems.len() == 0 {
                return Err("No more fire gems");
            }
            let cost = Card::FireGem.cost();
            if self.mats[cp].gold < cost {
                return Err("Not enough gold");
            }
            let gem = self.gems.pop().unwrap();
            {
                let m = &mut self.mats[cp];
                m.gold = m.gold - cost;
                m.discard.push(gem);
            }
            deltas.push(BoardDelta::DecreaseGold(cp, cost));
            deltas.push(
                BoardDelta::Move(Location::FireGems, 0, Location::Discard(cp), Some(
                    Card::FireGem,
                )),
            );
            proof {
                lemma_mats_count_update(m0.mats, cp as int, cur_mat(self@));
                assert(purchase_fire_gem_model(m0) matches Ok(pair) && self@ =~~= pair.0
                && deltas@ =~= deltas_entry + pair.1);
            }
        Ok(())
    }

    /// One action arm, applied to this (working) board.
    #[verifier::rlimit(100)]
    fn act_attack_player(&mut self, player: usize, amount: usize, deltas: &mut Vec<BoardDelta>) -> (r: Result<(), &'static str>)
        requires
            wf(old(self)@),
        ensures
            wf(final(self)@),
            (match attack_player_model(old(self)@, player, amount) {
                Ok(pair) => r matches Ok(u) && final(self)@ == pair.0 && final(deltas)@ == old(
                    deltas,
                )@ + pair.1,
                Err(e) => r matches Err(e2) && e2 == e,
            }),
    {
        let ghost m0 = self@;
        let ghost mat0 = cur_mat(m0);
        let ghost deltas_entry = deltas@;
        let cp = self.current_player;

            if player >= self.players {
                return Err("No such player");
            }
            if cp == player {
                return Err("Player can't attack himself");
            }
            if field_has_guard(&self.mats[player].field) {
                return Err("Can't attack player player with guards");
            }
            if self.mats[cp].combat < amount {
                return Err("Not enough combat");
            }
            {
                let m = &mut self.mats[cp];
                m.combat = m.combat - amount;
            }
            {
                let m = &mut self.mats[player];
                m.lives = m.lives.saturating_sub(amount);
            }
            deltas.push(BoardDelta::DecreaseCombat(cp, amount));
            deltas.push(BoardDelta::DecreaseHealth(player, amount));
            proof {
                lemma_mats_count_update(m0.mats, cp as int, cur_mat(self@));
                lemma_mats_count_update(
                    m0.mats.update(cp as int, cur_mat(self@)),
                    player as int,
                    self@.mats[player as int],
                );
                assert(attack_player_model(m0, player, amount) matches Ok(pair) && self@ =~~= pair.0
                && deltas@ =~= deltas_entry + pair.1);
            }
        Ok(())
    }

    /// One action arm, applied to this (working) board.
    #[verifier::rlimit(100)]
    fn act_attack_player_champion(&mut self, player: usize, champion: usize, deltas: &mut Vec<BoardDelta>) -> (r: Result<(), &'static str>)
        requires
            wf(old(self)@),
        ensures
            wf(final(self)@),
            (match attack_player_champion_model(old(self)@, player, champion) {
                Ok(pair) => r matches Ok(u) && final(self)@ == pair.0 && final(deltas)@ == old(
                    deltas,
                )@ + pair.1,
                Err(e) => r matches Err(e2) && e2 == e,
            }),
    {
        let ghost m0 = self@;
        let ghost mat0 = cur_mat(m0);
        let ghost deltas_entry = deltas@;
        let cp = self.current_player;

            if player >= self.players {
                return Err("No such player");
            }
            if cp == player {
                return Err("Player can't attack his own champions");
            }
            if champion >= self.mats[player].field.len() {
                return Err("No such card in field");
            }
            if !self.mats[player].field[champion].card.is_champion() {
                return Err("Target card is not a champion");
            }
            if !self.mats[player].field[champion].card.is_guard() && field_has_guard(
                &self.mats[player].field,
            ) {
                return Err("Can't attack champion player with guards");
            }
            let def = self.mats[player].field[champion].card.defense();
            if def > self.mats[cp].combat {
                return Err("Not enough combat");
            }
            {
                let m = &mut self.mats[cp];
                m.combat = m.combat - def;
            }
            let cif = {
                let m = &mut self.mats[player];
                m.field.remove(champion)
            };
            {
                let m = &mut self.mats[player];
                m.discard.push(cif.card);
            }
            deltas.push(BoardDelta::DecreaseCombat(cp, def));
            deltas.push(
                BoardDelta::Move(
                    Location::Field(player),
                    champion,
                    Location::Discard(player),
                    Some(cif.card),
                ),
            );
            proof {
                lemma_mats_count_update(m0.mats, cp as int, cur_mat(self@));
                lemma_mats_count_update(
                    m0.mats.update(cp as int, cur_mat(self@)),
                    player as int,
                    self@.mats[player as int],
                );
                assert(attack_player_champion_model(m0, player, champion) matches Ok(pair) && self@ =~~= pair.0
                && deltas@ =~= deltas_entry + pair.1);
            }
        Ok(())
    }
}

} // verus!
