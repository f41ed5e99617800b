use vstd::prelude::*;

verus! {

/// The four card factions, plus the factionless starter and gem cards.
#[derive(Clone, Copy, Debug, PartialEq, Eq, Structural)]
pub enum Faction {
    NoFaction,
    Wild,
    Necros,
    Guild,
    Imperial,
}

/// Every card identity in the closed catalog.
#[derive(Clone, Copy, Debug, PartialEq, Eq, Structural)]
pub enum Card {
    Gold,
    ShortSword,
    Dagger,
    Ruby,
    FireGem,
    ArkusImperialDragon,
    CloseRanks,
    Command,
    DarianWarMage,
    Domination,
    CristovTheJust,
    KrakaHighPriest,
    ManAtArms,
    MasterWeyan,
    RallyTheTroops,
    Recruit,
    TithePriest,
    Taxation,
    WordOfPower,
    BorgOgreMercenary,
    Bribe,
    DeathThreat,
    Deception,
    FireBomb,
    HitJob,
    Intimidation,
    MyrosGuildMage,
    ParovTheEnforcer,
    Profit,
    RakeMasterAssassin,
    RasmusTheSmuggler,
    SmashAndGrab,
    StreetThug,
    CultPriest,
    DarkEnergy,
    DarkReward,
    DeathCultist,
    DeathTouch,
    RaylaEndweaver,
    Influence,
    KrythosMasterVampire,
    LifeDrain,
    LysTheUnseen,
    TheRot,
    TyrannorTheDevourer,
    VarrickTheNecromancer,
    BroelynLoreweaver,
    CronTheBerserker,
    DireWolf,
    ElvenCurse,
    ElvenGift,
    GrakStormGiant,
    NaturesBounty,
    OrcGrunt,
    Rampage,
    TorgenRocksplitter,
    Spark,
    WolfForm,
    WolfShaman,
}

/// An instruction of a card ability: either an atomic mutation or a
/// composite (a two-way choice, or a battlefield-scaled amount).
#[derive(Debug)]
pub enum Effect {
    Gold(usize),
    Combat(usize),
    Heal(usize),
    Draw(usize),

    Choice(Vec<Effect>, Vec<Effect>),

    CombatPer(usize, PerAmount),
    HealPer(usize, PerAmount),
    Nothing,
    PutOverDeckFromDiscard,
    PutInHandFromDiscard,
    StunChampion,
    PrepareChampion,
    Sacrifice(usize),
    OpponentDiscards(usize),
    PlayerDiscards(usize),
    NextPurchaseToHand,
    NextActionPurchaseToTopOfDeck,
    NextPurchaseToTopOfDeck,
}

/// Ghost mirror of `Effect`, with `Seq` in place of `Vec` so that
/// specifications can build and take apart instruction lists.
#[verifier::ext_equal]
pub enum EffectModel {
    Gold(usize),
    Combat(usize),
    Heal(usize),
    Draw(usize),

    Choice(Seq<EffectModel>, Seq<EffectModel>),

    CombatPer(usize, PerAmount),
    HealPer(usize, PerAmount),
    Nothing,
    PutOverDeckFromDiscard,
    PutInHandFromDiscard,
    StunChampion,
    PrepareChampion,
    Sacrifice(usize),
    OpponentDiscards(usize),
    PlayerDiscards(usize),
    NextPurchaseToHand,
    NextActionPurchaseToTopOfDeck,
    NextPurchaseToTopOfDeck,
}

/// A card on a player's battlefield, with its two once-per-turn ability
/// flags; both reset at the owner's next turn start.
#[derive(Clone, Copy, Debug, PartialEq, Eq, Structural)]
pub struct CardInField {
    pub card: Card,
    pub expend_ability_used: bool,
    pub ally_ability_used: bool,
}

impl CardInField {
    /// A freshly played card: neither ability used yet.
    pub fn new(card: Card) -> (r: CardInField)
        ensures
            r == (CardInField { card, expend_ability_used: false, ally_ability_used: false }),
    {
        CardInField { card, expend_ability_used: false, ally_ability_used: false }
    }
}

/// What a battlefield card is counted per, when an amount scales.
#[derive(Clone, Copy, Debug, PartialEq, Eq, Structural)]
pub enum PerAmount {
    AdditionalFactionCard(Faction),
    Champion,
    AdditionalChampion,
    AdditionalGuardian,
}

/// The abstraction of an `Effect` value: `Vec` branches become `Seq`s.
pub open spec fn effect_model(e: Effect) -> EffectModel
    decreases e,
{
    match e {
        Effect::Gold(x) => EffectModel::Gold(x),
        Effect::Combat(x) => EffectModel::Combat(x),
        Effect::Heal(x) => EffectModel::Heal(x),
        Effect::Draw(x) => EffectModel::Draw(x),
        Effect::Choice(a, b) => EffectModel::Choice(effects_model(a@), effects_model(b@)),
        Effect::CombatPer(x, p) => EffectModel::CombatPer(x, p),
        Effect::HealPer(x, p) => EffectModel::HealPer(x, p),
        Effect::Nothing => EffectModel::Nothing,
        Effect::PutOverDeckFromDiscard => EffectModel::PutOverDeckFromDiscard,
        Effect::PutInHandFromDiscard => EffectModel::PutInHandFromDiscard,
        Effect::StunChampion => EffectModel::StunChampion,
        Effect::PrepareChampion => EffectModel::PrepareChampion,
        Effect::Sacrifice(x) => EffectModel::Sacrifice(x),
        Effect::OpponentDiscards(x) => EffectModel::OpponentDiscards(x),
        Effect::PlayerDiscards(x) => EffectModel::PlayerDiscards(x),
        Effect::NextPurchaseToHand => EffectModel::NextPurchaseToHand,
        Effect::NextActionPurchaseToTopOfDeck => EffectModel::NextActionPurchaseToTopOfDeck,
        Effect::NextPurchaseToTopOfDeck => EffectModel::NextPurchaseToTopOfDeck,
    }
}

/// Pointwise abstraction of an instruction list.
pub open spec fn effects_model(s: Seq<Effect>) -> Seq<EffectModel>
    decreases s,
{
    if s.len() == 0 {
        Seq::empty()
    } else {
        effects_model(s.drop_last()).push(effect_model(s.last()))
    }
}

/// The abstraction of an optional instruction list, as the catalog returns it.
pub open spec fn opt_effects_model(r: Option<Vec<Effect>>) -> Option<Seq<EffectModel>> {
    match r {
        Some(v) => Some(effects_model(v@)),
        None => None,
    }
}

pub broadcast proof fn effects_model_len(s: Seq<Effect>)
    ensures
        #[trigger] effects_model(s).len() == s.len(),
    decreases s,
{
    if s.len() > 0 {
        effects_model_len(s.drop_last());
    }
}

pub broadcast proof fn effects_model_index(s: Seq<Effect>, i: int)
    requires
        0 <= i < s.len(),
    ensures
        #[trigger] effects_model(s)[i] == effect_model(s[i]),
    decreases s,
{
    effects_model_len(s);
    if s.len() > 0 && i < s.len() - 1 {
        effects_model_index(s.drop_last(), i);
    }
}

impl Card {
    pub open spec fn spec_faction(&self) -> Faction {
        match self {
            Card::Gold => Faction::NoFaction,
            Card::ShortSword => Faction::NoFaction,
            Card::Dagger => Faction::NoFaction,
            Card::Ruby => Faction::NoFaction,
            Card::FireGem => Faction::NoFaction,

            Card::ArkusImperialDragon => Faction::Imperial,
            Card::CloseRanks => Faction::Imperial,
            Card::Command => Faction::Imperial,
            Card::DarianWarMage => Faction::Imperial,
            Card::Domination => Faction::Imperial,
            Card::CristovTheJust => Faction::Imperial,
            Card::KrakaHighPriest => Faction::Imperial,
            Card::ManAtArms => Faction::Imperial,
            Card::MasterWeyan => Faction::Imperial,
            Card::RallyTheTroops => Faction::Imperial,
            Card::Recruit => Faction::Imperial,
            Card::TithePriest => Faction::Imperial,
            Card::Taxation => Faction::Imperial,
            Card::WordOfPower => Faction::Imperial,

            Card::BorgOgreMercenary => Faction::Guild,
            Card::Bribe => Faction::Guild,
            Card::DeathThreat => Faction::Guild,
            Card::Deception => Faction::Guild,
            Card::FireBomb => Faction::Guild,
            Card::HitJob => Faction::Guild,
            Card::Intimidation => Faction::Guild,
            Card::MyrosGuildMage => Faction::Guild,
            Card::ParovTheEnforcer => Faction::Guild,
            Card::Profit => Faction::Guild,
            Card::RakeMasterAssassin => Faction::Guild,
            Card::RasmusTheSmuggler => Faction::Guild,
            Card::SmashAndGrab => Faction::Guild,
            Card::StreetThug => Faction::Guild,

            Card::CultPriest => Faction::Necros,
            Card::DarkEnergy => Faction::Necros,
            Card::DarkReward => Faction::Necros,
            Card::DeathCultist => Faction::Necros,
            Card::DeathTouch => Faction::Necros,
            Card::RaylaEndweaver => Faction::Necros,
            Card::Influence => Faction::Necros,
            Card::KrythosMasterVampire => Faction::Necros,
            Card::LifeDrain => Faction::Necros,
            Card::LysTheUnseen => Faction::Necros,
            Card::TheRot => Faction::Necros,
            Card::TyrannorTheDevourer => Faction::Necros,
            Card::VarrickTheNecromancer => Faction::Necros,

            Card::BroelynLoreweaver => Faction::Wild,
            Card::CronTheBerserker => Faction::Wild,
            Card::DireWolf => Faction::Wild,
            Card::ElvenCurse => Faction::Wild,
            Card::ElvenGift => Faction::Wild,
            Card::GrakStormGiant => Faction::Wild,
            Card::NaturesBounty => Faction::Wild,
            Card::OrcGrunt => Faction::Wild,
            Card::Rampage => Faction::Wild,
            Card::TorgenRocksplitter => Faction::Wild,
            Card::Spark => Faction::Wild,
            Card::WolfForm => Faction::Wild,
            Card::WolfShaman => Faction::Wild,
        }
    }

    /// The faction printed on the card.
    #[verifier::when_used_as_spec(spec_faction)]
    pub fn faction(&self) -> (r: Faction)
        ensures
            r == self.spec_faction(),
    {
        match self {
            Card::Gold => Faction::NoFaction,
            Card::ShortSword => Faction::NoFaction,
            Card::Dagger => Faction::NoFaction,
            Card::Ruby => Faction::NoFaction,
            Card::FireGem => Faction::NoFaction,

            Card::ArkusImperialDragon => Faction::Imperial,
            Card::CloseRanks => Faction::Imperial,
            Card::Command => Faction::Imperial,
            Card::DarianWarMage => Faction::Imperial,
            Card::Domination => Faction::Imperial,
            Card::CristovTheJust => Faction::Imperial,
            Card::KrakaHighPriest => Faction::Imperial,
            Card::ManAtArms => Faction::Imperial,
            Card::MasterWeyan => Faction::Imperial,
            Card::RallyTheTroops => Faction::Imperial,
            Card::Recruit => Faction::Imperial,
            Card::TithePriest => Faction::Imperial,
            Card::Taxation => Faction::Imperial,
            Card::WordOfPower => Faction::Imperial,

            Card::BorgOgreMercenary => Faction::Guild,
            Card::Bribe => Faction::Guild,
            Card::DeathThreat => Faction::Guild,
            Card::Deception => Faction::Guild,
            Card::FireBomb => Faction::Guild,
            Card::HitJob => Faction::Guild,
            Card::Intimidation => Faction::Guild,
            Card::MyrosGuildMage => Faction::Guild,
            Card::ParovTheEnforcer => Faction::Guild,
            Card::Profit => Faction::Guild,
            Card::RakeMasterAssassin => Faction::Guild,
            Card::RasmusTheSmuggler => Faction::Guild,
            Card::SmashAndGrab => Faction::Guild,
            Card::StreetThug => Faction::Guild,

            Card::CultPriest => Faction::Necros,
            Card::DarkEnergy => Faction::Necros,
            Card::DarkReward => Faction::Necros,
            Card::DeathCultist => Faction::Necros,
            Card::DeathTouch => Faction::Necros,
            Card::RaylaEndweaver => Faction::Necros,
            Card::Influence => Faction::Necros,
            Card::KrythosMasterVampire => Faction::Necros,
            Card::LifeDrain => Faction::Necros,
            Card::LysTheUnseen => Faction::Necros,
            Card::TheRot => Faction::Necros,
            Card::TyrannorTheDevourer => Faction::Necros,
            Card::VarrickTheNecromancer => Faction::Necros,

            Card::BroelynLoreweaver => Faction::Wild,
            Card::CronTheBerserker => Faction::Wild,
            Card::DireWolf => Faction::Wild,
            Card::ElvenCurse => Faction::Wild,
            Card::ElvenGift => Faction::Wild,
            Card::GrakStormGiant => Faction::Wild,
            Card::NaturesBounty => Faction::Wild,
            Card::OrcGrunt => Faction::Wild,
            Card::Rampage => Faction::Wild,
            Card::TorgenRocksplitter => Faction::Wild,
            Card::Spark => Faction::Wild,
            Card::WolfForm => Faction::Wild,
            Card::WolfShaman => Faction::Wild,
        }
    }

    pub open spec fn spec_defense(&self) -> usize {
        match self {
            Card::ArkusImperialDragon => 6,
            Card::DarianWarMage => 5,
            Card::CristovTheJust => 5,
            Card::KrakaHighPriest => 6,
            Card::MasterWeyan => 4,
            Card::TithePriest => 3,
            Card::ManAtArms => 4,
            Card::BorgOgreMercenary => 6,
            Card::MyrosGuildMage => 3,
            Card::ParovTheEnforcer => 5,
            Card::RakeMasterAssassin => 7,
            Card::RasmusTheSmuggler => 5,
            Card::StreetThug => 4,
            Card::CultPriest => 4,
            Card::DeathCultist => 3,
            Card::RaylaEndweaver => 4,
            Card::KrythosMasterVampire => 6,
            Card::LysTheUnseen => 5,
            Card::TyrannorTheDevourer => 6,
            Card::VarrickTheNecromancer => 3,
            Card::BroelynLoreweaver => 6,
            Card::CronTheBerserker => 6,
            Card::DireWolf => 5,
            Card::GrakStormGiant => 7,
            Card::OrcGrunt => 3,
            Card::TorgenRocksplitter => 7,
            Card::WolfShaman => 4,
            _ => 0,
        }
    }

    /// A champion's defense; zero for cards that are not champions.
    #[verifier::when_used_as_spec(spec_defense)]
    pub fn defense(&self) -> (r: usize)
        ensures
            r == self.spec_defense(),
    {
        match self {
            Card::ArkusImperialDragon => 6,
            Card::DarianWarMage => 5,
            Card::CristovTheJust => 5,
            Card::KrakaHighPriest => 6,
            Card::MasterWeyan => 4,
            Card::TithePriest => 3,
            Card::ManAtArms => 4,
            Card::BorgOgreMercenary => 6,
            Card::MyrosGuildMage => 3,
            Card::ParovTheEnforcer => 5,
            Card::RakeMasterAssassin => 7,
            Card::RasmusTheSmuggler => 5,
            Card::StreetThug => 4,
            Card::CultPriest => 4,
            Card::DeathCultist => 3,
            Card::RaylaEndweaver => 4,
            Card::KrythosMasterVampire => 6,
            Card::LysTheUnseen => 5,
            Card::TyrannorTheDevourer => 6,
            Card::VarrickTheNecromancer => 3,
            Card::BroelynLoreweaver => 6,
            Card::CronTheBerserker => 6,
            Card::DireWolf => 5,
            Card::GrakStormGiant => 7,
            Card::OrcGrunt => 3,
            Card::TorgenRocksplitter => 7,
            Card::WolfShaman => 4,
            _ => 0,
        }
    }

    pub open spec fn spec_is_champion(&self) -> bool {
        match self {
            Card::ArkusImperialDragon
            | Card::DarianWarMage
            | Card::CristovTheJust
            | Card::KrakaHighPriest
            | Card::MasterWeyan
            | Card::TithePriest
            | Card::BorgOgreMercenary
            | Card::MyrosGuildMage
            | Card::ParovTheEnforcer
            | Card::RakeMasterAssassin
            | Card::RasmusTheSmuggler
            | Card::StreetThug
            | Card::CultPriest
            | Card::DeathCultist
            | Card::ManAtArms
            | Card::RaylaEndweaver
            | Card::KrythosMasterVampire
            | Card::LysTheUnseen
            | Card::TyrannorTheDevourer
            | Card::VarrickTheNecromancer
            | Card::BroelynLoreweaver
            | Card::CronTheBerserker
            | Card::DireWolf
            | Card::GrakStormGiant
            | Card::OrcGrunt
            | Card::TorgenRocksplitter
            | Card::WolfShaman => true,
            _ => false,
        }
    }

    /// Whether the card stays on the battlefield across turns.
    #[verifier::when_used_as_spec(spec_is_champion)]
    pub fn is_champion(&self) -> (r: bool)
        ensures
            r == self.spec_is_champion(),
    {
        match self {
            Card::ArkusImperialDragon
            | Card::DarianWarMage
            | Card::CristovTheJust
            | Card::KrakaHighPriest
            | Card::MasterWeyan
            | Card::TithePriest
            | Card::BorgOgreMercenary
            | Card::MyrosGuildMage
            | Card::ParovTheEnforcer
            | Card::RakeMasterAssassin
            | Card::RasmusTheSmuggler
            | Card::StreetThug
            | Card::CultPriest
            | Card::DeathCultist
            | Card::ManAtArms
            | Card::RaylaEndweaver
            | Card::KrythosMasterVampire
            | Card::LysTheUnseen
            | Card::TyrannorTheDevourer
            | Card::VarrickTheNecromancer
            | Card::BroelynLoreweaver
            | Card::CronTheBerserker
            | Card::DireWolf
            | Card::GrakStormGiant
            | Card::OrcGrunt
            | Card::TorgenRocksplitter
            | Card::WolfShaman => true,
            _ => false,
        }
    }

    pub open spec fn spec_is_guard(&self) -> bool {
        match self {
            Card::ArkusImperialDragon
            | Card::CristovTheJust
            | Card::MasterWeyan
            | Card::BorgOgreMercenary
            | Card::MyrosGuildMage
            | Card::ParovTheEnforcer
            | Card::DeathCultist
            | Card::LysTheUnseen
            | Card::TyrannorTheDevourer
            | Card::ManAtArms
            | Card::DireWolf
            | Card::GrakStormGiant
            | Card::OrcGrunt
            | Card::TorgenRocksplitter => true,
            _ => false,
        }
    }

    /// Whether the card blocks direct attacks while on the battlefield.
    #[verifier::when_used_as_spec(spec_is_guard)]
    pub fn is_guard(&self) -> (r: bool)
        ensures
            r == self.spec_is_guard(),
    {
        match self {
            Card::ArkusImperialDragon
            | Card::CristovTheJust
            | Card::MasterWeyan
            | Card::BorgOgreMercenary
            | Card::MyrosGuildMage
            | Card::ParovTheEnforcer
            | Card::DeathCultist
            | Card::LysTheUnseen
            | Card::TyrannorTheDevourer
            | Card::ManAtArms
            | Card::DireWolf
            | Card::GrakStormGiant
            | Card::OrcGrunt
            | Card::TorgenRocksplitter => true,
            _ => false,
        }
    }

    pub open spec fn spec_is_object(&self) -> bool {
        match self {
            Card::Gold | Card::Ruby | Card::Dagger | Card::ShortSword | Card::FireGem => true,
            _ => false,
        }
    }

    /// Whether the card is a currency-like object of the starter decks or gem pool.
    #[verifier::when_used_as_spec(spec_is_object)]
    pub fn is_object(&self) -> (r: bool)
        ensures
            r == self.spec_is_object(),
    {
        match self {
            Card::Gold | Card::Ruby | Card::Dagger | Card::ShortSword | Card::FireGem => true,
            _ => false,
        }
    }

    pub open spec fn spec_is_action(&self) -> bool {
        !self.spec_is_champion() && !self.spec_is_object()
    }

    /// Whether the card is an action: neither a champion nor an object.
    #[verifier::when_used_as_spec(spec_is_action)]
    pub fn is_action(&self) -> (r: bool)
        ensures
            r == self.spec_is_action(),
    {
        !self.is_champion() && !self.is_object()
    }

    pub open spec fn spec_cost(&self) -> usize {
        match self {
            Card::FireGem => 2,

            Card::ArkusImperialDragon => 8,
            Card::CloseRanks => 3,
            Card::Command => 5,
            Card::DarianWarMage => 4,
            Card::Domination => 7,
            Card::CristovTheJust => 5,
            Card::KrakaHighPriest => 6,
            Card::ManAtArms => 3,
            Card::MasterWeyan => 4,
            Card::RallyTheTroops => 4,
            Card::Recruit => 2,
            Card::TithePriest => 2,
            Card::Taxation => 1,
            Card::WordOfPower => 6,

            Card::BorgOgreMercenary => 6,
            Card::Bribe => 3,
            Card::DeathThreat => 3,
            Card::Deception => 5,
            Card::FireBomb => 8,
            Card::HitJob => 4,
            Card::Intimidation => 2,
            Card::MyrosGuildMage => 5,
            Card::ParovTheEnforcer => 5,
            Card::Profit => 1,
            Card::RakeMasterAssassin => 7,
            Card::RasmusTheSmuggler => 4,
            Card::SmashAndGrab => 6,
            Card::StreetThug => 3,

            Card::CultPriest => 3,
            Card::DarkEnergy => 4,
            Card::DarkReward => 5,
            Card::DeathCultist => 2,
            Card::DeathTouch => 1,
            Card::RaylaEndweaver => 4,
            Card::Influence => 2,
            Card::KrythosMasterVampire => 7,
            Card::LifeDrain => 6,
            Card::LysTheUnseen => 6,
            Card::TheRot => 3,
            Card::TyrannorTheDevourer => 8,
            Card::VarrickTheNecromancer => 5,

            Card::BroelynLoreweaver => 4,
            Card::CronTheBerserker => 6,
            Card::DireWolf => 5,
            Card::ElvenCurse => 3,
            Card::ElvenGift => 2,
            Card::GrakStormGiant => 8,
            Card::NaturesBounty => 4,
            Card::OrcGrunt => 3,
            Card::Rampage => 6,
            Card::TorgenRocksplitter => 7,
            Card::Spark => 1,
            Card::WolfForm => 5,
            Card::WolfShaman => 2,

            _ => 0,
        }
    }

    /// The acquisition cost; zero for cards that cannot be purchased.
    #[verifier::when_used_as_spec(spec_cost)]
    pub fn cost(&self) -> (r: usize)
        ensures
            r == self.spec_cost(),
    {
        match self {
            Card::FireGem => 2,

            Card::ArkusImperialDragon => 8,
            Card::CloseRanks => 3,
            Card::Command => 5,
            Card::DarianWarMage => 4,
            Card::Domination => 7,
            Card::CristovTheJust => 5,
            Card::KrakaHighPriest => 6,
            Card::ManAtArms => 3,
            Card::MasterWeyan => 4,
            Card::RallyTheTroops => 4,
            Card::Recruit => 2,
            Card::TithePriest => 2,
            Card::Taxation => 1,
            Card::WordOfPower => 6,

            Card::BorgOgreMercenary => 6,
            Card::Bribe => 3,
            Card::DeathThreat => 3,
            Card::Deception => 5,
            Card::FireBomb => 8,
            Card::HitJob => 4,
            Card::Intimidation => 2,
            Card::MyrosGuildMage => 5,
            Card::ParovTheEnforcer => 5,
            Card::Profit => 1,
            Card::RakeMasterAssassin => 7,
            Card::RasmusTheSmuggler => 4,
            Card::SmashAndGrab => 6,
            Card::StreetThug => 3,

            Card::CultPriest => 3,
            Card::DarkEnergy => 4,
            Card::DarkReward => 5,
            Card::DeathCultist => 2,
            Card::DeathTouch => 1,
            Card::RaylaEndweaver => 4,
            Card::Influence => 2,
            Card::KrythosMasterVampire => 7,
            Card::LifeDrain => 6,
            Card::LysTheUnseen => 6,
            Card::TheRot => 3,
            Card::TyrannorTheDevourer => 8,
            Card::VarrickTheNecromancer => 5,

            Card::BroelynLoreweaver => 4,
            Card::CronTheBerserker => 6,
            Card::DireWolf => 5,
            Card::ElvenCurse => 3,
            Card::ElvenGift => 2,
            Card::GrakStormGiant => 8,
            Card::NaturesBounty => 4,
            Card::OrcGrunt => 3,
            Card::Rampage => 6,
            Card::TorgenRocksplitter => 7,
            Card::Spark => 1,
            Card::WolfForm => 5,
            Card::WolfShaman => 2,

            _ => 0,
        }
    }

    pub open spec fn spec_primary_ability(&self) -> Option<Seq<EffectModel>> {
        match self {
            Card::Gold => Some(seq![EffectModel::Gold(1)]),
            Card::Ruby => Some(seq![EffectModel::Gold(2)]),
            Card::Dagger => Some(seq![EffectModel::Combat(1)]),
            Card::ShortSword => Some(seq![EffectModel::Combat(2)]),
            Card::FireGem => Some(seq![EffectModel::Gold(2)]),
            Card::Spark => Some(seq![EffectModel::Combat(3), EffectModel::OpponentDiscards(1)]),
            Card::Influence => Some(seq![EffectModel::Gold(3)]),
            Card::DeathTouch => Some(seq![
                    EffectModel::Combat(2),
                    EffectModel::Choice(seq![], seq![EffectModel::Sacrifice(1)]),
            ]),
            Card::Bribe => Some(seq![EffectModel::Gold(3)]),
            Card::ElvenCurse => Some(seq![EffectModel::Combat(6), EffectModel::OpponentDiscards(1)]),
            Card::Taxation => Some(seq![EffectModel::Gold(2)]),
            Card::Deception => Some(seq![EffectModel::Gold(2), EffectModel::Draw(1)]),
            Card::Profit => Some(seq![EffectModel::Gold(2)]),
            Card::LifeDrain => Some(seq![
                    EffectModel::Combat(8),
                    EffectModel::Choice(seq![], seq![EffectModel::Sacrifice(1)]),
            ]),
            Card::CloseRanks => Some(seq![EffectModel::Combat(5), EffectModel::CombatPer(2, PerAmount::Champion)]),
            Card::DeathThreat => Some(seq![EffectModel::Combat(1), EffectModel::Draw(1)]),
            _ => None,
        }
    }

    /// The instructions run when the card is played from hand, if any.
    pub fn primary_ability(&self) -> (r: Option<Vec<Effect>>)
        ensures
            opt_effects_model(r) == self.spec_primary_ability(),
    {
        broadcast use effects_model_len, effects_model_index;
        match self {
            Card::Gold => {
                let v = vec![Effect::Gold(1)];
                proof {
                    assert(effects_model(v@) =~~= seq![EffectModel::Gold(1)]);
                }
                Some(v)
            }
            Card::Ruby => {
                let v = vec![Effect::Gold(2)];
                proof {
                    assert(effects_model(v@) =~~= seq![EffectModel::Gold(2)]);
                }
                Some(v)
            }
            Card::Dagger => {
                let v = vec![Effect::Combat(1)];
                proof {
                    assert(effects_model(v@) =~~= seq![EffectModel::Combat(1)]);
                }
                Some(v)
            }
            Card::ShortSword => {
                let v = vec![Effect::Combat(2)];
                proof {
                    assert(effects_model(v@) =~~= seq![EffectModel::Combat(2)]);
                }
                Some(v)
            }
            Card::FireGem => {
                let v = vec![Effect::Gold(2)];
                proof {
                    assert(effects_model(v@) =~~= seq![EffectModel::Gold(2)]);
                }
                Some(v)
            }
            Card::Spark => {
                let v = vec![Effect::Combat(3), Effect::OpponentDiscards(1)];
                proof {
                    assert(effects_model(v@) =~~= seq![EffectModel::Combat(3), EffectModel::OpponentDiscards(1)]);
                }
                Some(v)
            }
            Card::Influence => {
                let v = vec![Effect::Gold(3)];
                proof {
                    assert(effects_model(v@) =~~= seq![EffectModel::Gold(3)]);
                }
                Some(v)
            }
            Card::DeathTouch => {
                let first = vec![];
                let second = vec![Effect::Sacrifice(1)];
                proof {
                    assert(effects_model(first@) =~= seq![]);
                    assert(effects_model(second@) =~= seq![EffectModel::Sacrifice(1)]);
                }
                let v = vec![Effect::Combat(2), Effect::Choice(first, second),];
                proof {
                    assert(effects_model(v@) =~~= seq![EffectModel::Combat(2), EffectModel::Choice(seq![], seq![EffectModel::Sacrifice(1)]),]);
                }
                Some(v)
            }
            Card::Bribe => {
                let v = vec![Effect::Gold(3)];
                proof {
                    assert(effects_model(v@) =~~= seq![EffectModel::Gold(3)]);
                }
                Some(v)
            }
            Card::ElvenCurse => {
                let v = vec![Effect::Combat(6), Effect::OpponentDiscards(1)];
                proof {
                    assert(effects_model(v@) =~~= seq![EffectModel::Combat(6), EffectModel::OpponentDiscards(1)]);
                }
                Some(v)
            }
            Card::Taxation => {
                let v = vec![Effect::Gold(2)];
                proof {
                    assert(effects_model(v@) =~~= seq![EffectModel::Gold(2)]);
                }
                Some(v)
            }
            Card::Deception => {
                let v = vec![Effect::Gold(2), Effect::Draw(1)];
                proof {
                    assert(effects_model(v@) =~~= seq![EffectModel::Gold(2), EffectModel::Draw(1)]);
                }
                Some(v)
            }
            Card::Profit => {
                let v = vec![Effect::Gold(2)];
                proof {
                    assert(effects_model(v@) =~~= seq![EffectModel::Gold(2)]);
                }
                Some(v)
            }
            Card::LifeDrain => {
                let first = vec![];
                let second = vec![Effect::Sacrifice(1)];
                proof {
                    assert(effects_model(first@) =~= seq![]);
                    assert(effects_model(second@) =~= seq![EffectModel::Sacrifice(1)]);
                }
                let v = vec![Effect::Combat(8), Effect::Choice(first, second),];
                proof {
                    assert(effects_model(v@) =~~= seq![EffectModel::Combat(8), EffectModel::Choice(seq![], seq![EffectModel::Sacrifice(1)]),]);
                }
                Some(v)
            }
            Card::CloseRanks => {
                let v = vec![Effect::Combat(5), Effect::CombatPer(2, PerAmount::Champion)];
                proof {
                    assert(effects_model(v@) =~~= seq![EffectModel::Combat(5), EffectModel::CombatPer(2, PerAmount::Champion)]);
                }
                Some(v)
            }
            Card::DeathThreat => {
                let v = vec![Effect::Combat(1), Effect::Draw(1)];
                proof {
                    assert(effects_model(v@) =~~= seq![EffectModel::Combat(1), EffectModel::Draw(1)]);
                }
                Some(v)
            }
            _ => None,
        }
    }

    pub open spec fn spec_expend_ability(&self) -> Option<Seq<EffectModel>> {
        match self {
            Card::WolfShaman => Some(seq![
                    EffectModel::Combat(2),
                    EffectModel::CombatPer(
                        1,
                        PerAmount::AdditionalFactionCard(Card::WolfShaman.faction()),
                    ),
            ]),
            Card::TithePriest => Some(seq![EffectModel::Choice(
                        seq![EffectModel::Gold(1)],
                        seq![EffectModel::HealPer(1, PerAmount::Champion)],
            )]),
            Card::ManAtArms => Some(seq![
                    EffectModel::Combat(2),
                    EffectModel::CombatPer(1, PerAmount::AdditionalGuardian),
            ]),
            Card::LysTheUnseen => Some(seq![
                    EffectModel::Combat(2),
                    EffectModel::Choice(seq![], seq![EffectModel::Sacrifice(1), EffectModel::Combat(2)]),
            ]),
            Card::DeathCultist => Some(seq![EffectModel::Combat(2)]),
            Card::RaylaEndweaver => Some(seq![EffectModel::Combat(3)]),
            Card::KrakaHighPriest => Some(seq![EffectModel::Heal(2), EffectModel::Draw(1)]),
            Card::StreetThug => Some(seq![EffectModel::Choice(
                        seq![EffectModel::Gold(1)],
                        seq![EffectModel::Combat(2)],
            )]),
            Card::ParovTheEnforcer => Some(seq![EffectModel::Combat(3)]),
            Card::OrcGrunt => Some(seq![EffectModel::Combat(2)]),
            _ => None,
        }
    }

    /// The once-per-turn instructions of a battlefield champion, if any.
    pub fn expend_ability(&self) -> (r: Option<Vec<Effect>>)
        ensures
            opt_effects_model(r) == self.spec_expend_ability(),
    {
        broadcast use effects_model_len, effects_model_index;
        match self {
            Card::WolfShaman => {
                let v = vec![Effect::Combat(2), Effect::CombatPer(1, PerAmount::AdditionalFactionCard(Card::WolfShaman.faction()),),];
                proof {
                    assert(effects_model(v@) =~~= seq![EffectModel::Combat(2), EffectModel::CombatPer(1, PerAmount::AdditionalFactionCard(Card::WolfShaman.faction()),),]);
                }
                Some(v)
            }
            Card::TithePriest => {
                let first = vec![Effect::Gold(1)];
                let second = vec![Effect::HealPer(1, PerAmount::Champion)];
                proof {
                    assert(effects_model(first@) =~= seq![EffectModel::Gold(1)]);
                    assert(effects_model(second@) =~= seq![EffectModel::HealPer(1, PerAmount::Champion)]);
                }
                let v = vec![Effect::Choice(first, second)];
                proof {
                    assert(effects_model(v@) =~~= seq![EffectModel::Choice(seq![EffectModel::Gold(1)], seq![EffectModel::HealPer(1, PerAmount::Champion)],)]);
                }
                Some(v)
            }
            Card::ManAtArms => {
                let v = vec![Effect::Combat(2), Effect::CombatPer(1, PerAmount::AdditionalGuardian),];
                proof {
                    assert(effects_model(v@) =~~= seq![EffectModel::Combat(2), EffectModel::CombatPer(1, PerAmount::AdditionalGuardian),]);
                }
                Some(v)
            }
            Card::LysTheUnseen => {
                let first = vec![];
                let second = vec![Effect::Sacrifice(1), Effect::Combat(2)];
                proof {
                    assert(effects_model(first@) =~= seq![]);
                    assert(effects_model(second@) =~= seq![EffectModel::Sacrifice(1), EffectModel::Combat(2)]);
                }
                let v = vec![Effect::Combat(2), Effect::Choice(first, second),];
                proof {
                    assert(effects_model(v@) =~~= seq![EffectModel::Combat(2), EffectModel::Choice(seq![], seq![EffectModel::Sacrifice(1), EffectModel::Combat(2)]),]);
                }
                Some(v)
            }
            Card::DeathCultist => {
                let v = vec![Effect::Combat(2)];
                proof {
                    assert(effects_model(v@) =~~= seq![EffectModel::Combat(2)]);
                }
                Some(v)
            }
            Card::RaylaEndweaver => {
                let v = vec![Effect::Combat(3)];
                proof {
                    assert(effects_model(v@) =~~= seq![EffectModel::Combat(3)]);
                }
                Some(v)
            }
            Card::KrakaHighPriest => {
                let v = vec![Effect::Heal(2), Effect::Draw(1)];
                proof {
                    assert(effects_model(v@) =~~= seq![EffectModel::Heal(2), EffectModel::Draw(1)]);
                }
                Some(v)
            }
            Card::StreetThug => {
                let first = vec![Effect::Gold(1)];
                let second = vec![Effect::Combat(2)];
                proof {
                    assert(effects_model(first@) =~= seq![EffectModel::Gold(1)]);
                    assert(effects_model(second@) =~= seq![EffectModel::Combat(2)]);
                }
                let v = vec![Effect::Choice(first, second)];
                proof {
                    assert(effects_model(v@) =~~= seq![EffectModel::Choice(seq![EffectModel::Gold(1)], seq![EffectModel::Combat(2)],)]);
                }
                Some(v)
            }
            Card::ParovTheEnforcer => {
                let v = vec![Effect::Combat(3)];
                proof {
                    assert(effects_model(v@) =~~= seq![EffectModel::Combat(3)]);
                }
                Some(v)
            }
            Card::OrcGrunt => {
                let v = vec![Effect::Combat(2)];
                proof {
                    assert(effects_model(v@) =~~= seq![EffectModel::Combat(2)]);
                }
                Some(v)
            }
            _ => None,
        }
    }

    pub open spec fn spec_ally_ability(&self) -> Option<Seq<EffectModel>> {
        match self {
            Card::Spark => Some(seq![EffectModel::Combat(2)]),
            Card::DeathTouch => Some(seq![EffectModel::Combat(2)]),
            Card::ElvenCurse => Some(seq![EffectModel::Combat(3)]),
            Card::Taxation => Some(seq![EffectModel::Heal(6)]),
            Card::KrakaHighPriest => Some(seq![EffectModel::HealPer(2, PerAmount::Champion)]),
            Card::RaylaEndweaver => Some(seq![EffectModel::Draw(1)]),
            Card::Profit => Some(seq![EffectModel::Combat(4)]),
            Card::LifeDrain => Some(seq![EffectModel::Draw(1)]),
            Card::ParovTheEnforcer => Some(seq![EffectModel::Draw(1)]),
            Card::CloseRanks => Some(seq![EffectModel::Heal(6)]),
            Card::DeathThreat => Some(seq![EffectModel::StunChampion]),
            Card::OrcGrunt => Some(seq![EffectModel::Draw(1)]),
            _ => None,
        }
    }

    /// The once-per-turn instructions unlocked by a second same-faction card, if any.
    pub fn ally_ability(&self) -> (r: Option<Vec<Effect>>)
        ensures
            opt_effects_model(r) == self.spec_ally_ability(),
    {
        broadcast use effects_model_len, effects_model_index;
        match self {
            Card::Spark => {
                let v = vec![Effect::Combat(2)];
                proof {
                    assert(effects_model(v@) =~~= seq![EffectModel::Combat(2)]);
                }
                Some(v)
            }
            Card::DeathTouch => {
                let v = vec![Effect::Combat(2)];
                proof {
                    assert(effects_model(v@) =~~= seq![EffectModel::Combat(2)]);
                }
                Some(v)
            }
            Card::ElvenCurse => {
                let v = vec![Effect::Combat(3)];
                proof {
                    assert(effects_model(v@) =~~= seq![EffectModel::Combat(3)]);
                }
                Some(v)
            }
            Card::Taxation => {
                let v = vec![Effect::Heal(6)];
                proof {
                    assert(effects_model(v@) =~~= seq![EffectModel::Heal(6)]);
                }
                Some(v)
            }
            Card::KrakaHighPriest => {
                let v = vec![Effect::HealPer(2, PerAmount::Champion)];
                proof {
                    assert(effects_model(v@) =~~= seq![EffectModel::HealPer(2, PerAmount::Champion)]);
                }
                Some(v)
            }
            Card::RaylaEndweaver => {
                let v = vec![Effect::Draw(1)];
                proof {
                    assert(effects_model(v@) =~~= seq![EffectModel::Draw(1)]);
                }
                Some(v)
            }
            Card::Profit => {
                let v = vec![Effect::Combat(4)];
                proof {
                    assert(effects_model(v@) =~~= seq![EffectModel::Combat(4)]);
                }
                Some(v)
            }
            Card::LifeDrain => {
                let v = vec![Effect::Draw(1)];
                proof {
                    assert(effects_model(v@) =~~= seq![EffectModel::Draw(1)]);
                }
                Some(v)
            }
            Card::ParovTheEnforcer => {
                let v = vec![Effect::Draw(1)];
                proof {
                    assert(effects_model(v@) =~~= seq![EffectModel::Draw(1)]);
                }
                Some(v)
            }
            Card::CloseRanks => {
                let v = vec![Effect::Heal(6)];
                proof {
                    assert(effects_model(v@) =~~= seq![EffectModel::Heal(6)]);
                }
                Some(v)
            }
            Card::DeathThreat => {
                let v = vec![Effect::StunChampion];
                proof {
                    assert(effects_model(v@) =~~= seq![EffectModel::StunChampion]);
                }
                Some(v)
            }
            Card::OrcGrunt => {
                let v = vec![Effect::Draw(1)];
                proof {
                    assert(effects_model(v@) =~~= seq![EffectModel::Draw(1)]);
                }
                Some(v)
            }
            _ => None,
        }
    }

    pub open spec fn spec_sacrifice_ability(&self) -> Option<Seq<EffectModel>> {
        match self {
            Card::FireGem => Some(seq![EffectModel::Combat(3)]),
            Card::Influence => Some(seq![EffectModel::Combat(3)]),
            Card::Bribe => Some(seq![EffectModel::NextActionPurchaseToTopOfDeck]),
            _ => None,
        }
    }

    /// The instructions run when the card is sacrificed from the battlefield, if any.
    pub fn sacrifice_ability(&self) -> (r: Option<Vec<Effect>>)
        ensures
            opt_effects_model(r) == self.spec_sacrifice_ability(),
    {
        broadcast use effects_model_len, effects_model_index;
        match self {
            Card::FireGem => {
                let v = vec![Effect::Combat(3)];
                proof {
                    assert(effects_model(v@) =~~= seq![EffectModel::Combat(3)]);
                }
                Some(v)
            }
            Card::Influence => {
                let v = vec![Effect::Combat(3)];
                proof {
                    assert(effects_model(v@) =~~= seq![EffectModel::Combat(3)]);
                }
                Some(v)
            }
            Card::Bribe => {
                let v = vec![Effect::NextActionPurchaseToTopOfDeck];
                proof {
                    assert(effects_model(v@) =~~= seq![EffectModel::NextActionPurchaseToTopOfDeck]);
                }
                Some(v)
            }
            _ => None,
        }
    }

}

/// The decks a match is created from: the shop's face-down pile, the
/// shared gem pool, and the personal starting deck every player copies.
#[derive(Debug)]
pub struct Setup {
    pub shop_deck: Vec<Card>,
    pub gems: Vec<Card>,
    pub player_deck: Vec<Card>,
}

/// Ten spark cards: the miniature shop pile of the small test setup.
pub open spec fn spec_test_shop_deck() -> Seq<Card> {
    Seq::new(10, |i: int| Card::Spark)
}

/// The shared pool of ten fire gems.
pub open spec fn spec_gem_pile() -> Seq<Card> {
    Seq::new(10, |i: int| Card::FireGem)
}

/// The ten-card personal starting deck.
pub open spec fn spec_player_deck() -> Seq<Card> {
    seq![
        Card::Gold,
        Card::Gold,
        Card::Gold,
        Card::Gold,
        Card::Gold,
        Card::Gold,
        Card::Gold,
        Card::ShortSword,
        Card::Dagger,
        Card::Ruby,
    ]
}

/// The full eighty-card shop pile of the base game.
pub open spec fn spec_base_shop_deck() -> Seq<Card> {
    seq![
        Card::ArkusImperialDragon,
        Card::CloseRanks,
        Card::Command,
        Card::DarianWarMage,
        Card::Domination,
        Card::CristovTheJust,
        Card::KrakaHighPriest,
        Card::ManAtArms,
        Card::ManAtArms,
        Card::MasterWeyan,
        Card::RallyTheTroops,
        Card::Recruit,
        Card::Recruit,
        Card::Recruit,
        Card::TithePriest,
        Card::TithePriest,
        Card::Taxation,
        Card::Taxation,
        Card::Taxation,
        Card::WordOfPower,
        Card::BorgOgreMercenary,
        Card::Bribe,
        Card::Bribe,
        Card::Bribe,
        Card::DeathThreat,
        Card::Deception,
        Card::FireBomb,
        Card::HitJob,
        Card::Intimidation,
        Card::Intimidation,
        Card::MyrosGuildMage,
        Card::ParovTheEnforcer,
        Card::Profit,
        Card::Profit,
        Card::Profit,
        Card::RakeMasterAssassin,
        Card::RasmusTheSmuggler,
        Card::SmashAndGrab,
        Card::StreetThug,
        Card::StreetThug,
        Card::CultPriest,
        Card::CultPriest,
        Card::DarkEnergy,
        Card::DarkReward,
        Card::DeathCultist,
        Card::DeathCultist,
        Card::DeathTouch,
        Card::DeathTouch,
        Card::DeathTouch,
        Card::RaylaEndweaver,
        Card::Influence,
        Card::Influence,
        Card::Influence,
        Card::KrythosMasterVampire,
        Card::LifeDrain,
        Card::LysTheUnseen,
        Card::TheRot,
        Card::TheRot,
        Card::TyrannorTheDevourer,
        Card::VarrickTheNecromancer,
        Card::BroelynLoreweaver,
        Card::CronTheBerserker,
        Card::DireWolf,
        Card::ElvenCurse,
        Card::ElvenCurse,
        Card::ElvenGift,
        Card::ElvenGift,
        Card::ElvenGift,
        Card::GrakStormGiant,
        Card::NaturesBounty,
        Card::OrcGrunt,
        Card::OrcGrunt,
        Card::Rampage,
        Card::TorgenRocksplitter,
        Card::Spark,
        Card::Spark,
        Card::Spark,
        Card::WolfForm,
        Card::WolfShaman,
        Card::WolfShaman
    ]
}

impl Setup {
    /// A miniature setup for exercising the engine.
    pub fn test() -> (r: Setup)
        ensures
            r.shop_deck@ == spec_test_shop_deck(),
            r.gems@ == spec_gem_pile(),
            r.player_deck@ == spec_player_deck(),
    {
        Setup {
            shop_deck: vec![
                Card::Spark,
                Card::Spark,
                Card::Spark,
                Card::Spark,
                Card::Spark,
                Card::Spark,
                Card::Spark,
                Card::Spark,
                Card::Spark,
                Card::Spark,
            ],
            gems: vec![
                Card::FireGem,
                Card::FireGem,
                Card::FireGem,
                Card::FireGem,
                Card::FireGem,
                Card::FireGem,
                Card::FireGem,
                Card::FireGem,
                Card::FireGem,
                Card::FireGem,
            ],
            player_deck: vec![
                Card::Gold,
                Card::Gold,
                Card::Gold,
                Card::Gold,
                Card::Gold,
                Card::Gold,
                Card::Gold,
                Card::ShortSword,
                Card::Dagger,
                Card::Ruby,
            ],
        }
    }

    /// The base game setup.
    pub fn base() -> (r: Setup)
        ensures
            r.shop_deck@ == spec_base_shop_deck(),
            r.gems@ == spec_gem_pile(),
            r.player_deck@ == spec_player_deck(),
    {
        Setup {
            shop_deck: vec![
                Card::ArkusImperialDragon,
        Card::CloseRanks,
        Card::Command,
        Card::DarianWarMage,
        Card::Domination,
        Card::CristovTheJust,
        Card::KrakaHighPriest,
        Card::ManAtArms,
        Card::ManAtArms,
        Card::MasterWeyan,
        Card::RallyTheTroops,
        Card::Recruit,
        Card::Recruit,
        Card::Recruit,
        Card::TithePriest,
        Card::TithePriest,
        Card::Taxation,
        Card::Taxation,
        Card::Taxation,
        Card::WordOfPower,
        Card::BorgOgreMercenary,
        Card::Bribe,
        Card::Bribe,
        Card::Bribe,
        Card::DeathThreat,
        Card::Deception,
        Card::FireBomb,
        Card::HitJob,
        Card::Intimidation,
        Card::Intimidation,
        Card::MyrosGuildMage,
        Card::ParovTheEnforcer,
        Card::Profit,
        Card::Profit,
        Card::Profit,
        Card::RakeMasterAssassin,
        Card::RasmusTheSmuggler,
        Card::SmashAndGrab,
        Card::StreetThug,
        Card::StreetThug,
        Card::CultPriest,
        Card::CultPriest,
        Card::DarkEnergy,
        Card::DarkReward,
        Card::DeathCultist,
        Card::DeathCultist,
        Card::DeathTouch,
        Card::DeathTouch,
        Card::DeathTouch,
        Card::RaylaEndweaver,
        Card::Influence,
        Card::Influence,
        Card::Influence,
        Card::KrythosMasterVampire,
        Card::LifeDrain,
        Card::LysTheUnseen,
        Card::TheRot,
        Card::TheRot,
        Card::TyrannorTheDevourer,
        Card::VarrickTheNecromancer,
        Card::BroelynLoreweaver,
        Card::CronTheBerserker,
        Card::DireWolf,
        Card::ElvenCurse,
        Card::ElvenCurse,
        Card::ElvenGift,
        Card::ElvenGift,
        Card::ElvenGift,
        Card::GrakStormGiant,
        Card::NaturesBounty,
        Card::OrcGrunt,
        Card::OrcGrunt,
        Card::Rampage,
        Card::TorgenRocksplitter,
        Card::Spark,
        Card::Spark,
        Card::Spark,
        Card::WolfForm,
        Card::WolfShaman,
        Card::WolfShaman
            ],
            gems: vec![
                Card::FireGem,
                Card::FireGem,
                Card::FireGem,
                Card::FireGem,
                Card::FireGem,
                Card::FireGem,
                Card::FireGem,
                Card::FireGem,
                Card::FireGem,
                Card::FireGem,
            ],
            player_deck: vec![
                Card::Gold,
                Card::Gold,
                Card::Gold,
                Card::Gold,
                Card::Gold,
                Card::Gold,
                Card::Gold,
                Card::ShortSword,
                Card::Dagger,
                Card::Ruby,
            ],
        }
    }
}

impl Default for Setup {
    /// The default setup is the miniature one.
    fn default() -> (r: Setup)
        ensures
            r.shop_deck@ == spec_test_shop_deck(),
            r.gems@ == spec_gem_pile(),
            r.player_deck@ == spec_player_deck(),
    {
        Setup::test()
    }
}

} // verus!
