//! Card definitions: immutable data that describes what a card is.
//!
//! Each type has a view that replaces strings and vectors by sequences, so
//! that contracts can compare cards by content.

use vstd::prelude::*;

use crate::text::ends_with_ex;
use crate::text::has_ex_suffix;
use crate::text::str_eq;

verus! {

/// The elements of the game. Energy and creatures both carry one.
#[derive(Clone, Copy, Debug, PartialEq, Eq, Hash, Structural)]
pub enum EnergyType {
    Grass,
    Fire,
    Water,
    Lightning,
    Psychic,
    Fighting,
    Darkness,
    Metal,
    Dragon,
    Colorless,
}

/// The sub-types of trainer cards.
#[derive(Clone, Copy, Debug, PartialEq, Eq, Hash, Structural)]
pub enum TrainerType {
    Supporter,
    Item,
    Tool,
}

/// One attack of a creature.
#[derive(Debug, PartialEq, Eq, Hash)]
pub struct Attack {
    /// The energy that must be attached to use the attack.
    pub energy_required: Vec<EnergyType>,
    pub title: String,
    /// Damage dealt to the defending creature before any effect.
    pub fixed_damage: u32,
    /// The declared effect, if the attack does more than fixed damage.
    pub effect: Option<String>,
}

/// An attack as contracts see it.
pub struct AttackView {
    pub energy_required: Seq<EnergyType>,
    pub title: Seq<char>,
    pub fixed_damage: u32,
    pub effect: Option<Seq<char>>,
}

/// View of an optional string.
pub open spec fn opt_text(s: Option<String>) -> Option<Seq<char>> {
    match s {
        Some(t) => Some(t@),
        None => None,
    }
}

impl View for Attack {
    type V = AttackView;

    open spec fn view(&self) -> AttackView {
        AttackView {
            energy_required: self.energy_required@,
            title: self.title@,
            fixed_damage: self.fixed_damage,
            effect: opt_text(self.effect),
        }
    }
}

/// Copies an optional string.
pub fn clone_opt_text(s: &Option<String>) -> (r: Option<String>)
    ensures
        opt_text(r) == opt_text(*s),
{
    match s {
        Some(t) => Some(t.clone()),
        None => None,
    }
}

/// Copies a list of energies.
pub fn clone_energies(v: &Vec<EnergyType>) -> (r: Vec<EnergyType>)
    ensures
        r@ == v@,
{
    let mut out: Vec<EnergyType> = Vec::new();
    let mut i: usize = 0;
    while i < v.len()
        invariant
            i <= v.len(),
            out@ == v@.take(i as int),
        decreases v.len() - i,
    {
        out.push(v[i]);
        assert(out@ =~= v@.take(i + 1));
        i += 1;
    }
    assert(v@.take(v.len() as int) =~= v@);
    out
}

impl Clone for Attack {
    fn clone(&self) -> (r: Self)
        ensures
            r@ == self@,
    {
        Attack {
            energy_required: clone_energies(&self.energy_required),
            title: self.title.clone(),
            fixed_damage: self.fixed_damage,
            effect: clone_opt_text(&self.effect),
        }
    }
}

/// The declared ability of a creature.
#[derive(Debug, PartialEq, Eq, Hash)]
pub struct Ability {
    pub title: String,
    pub effect: String,
}

/// An ability as contracts see it.
pub struct AbilityView {
    pub title: Seq<char>,
    pub effect: Seq<char>,
}

impl View for Ability {
    type V = AbilityView;

    open spec fn view(&self) -> AbilityView {
        AbilityView { title: self.title@, effect: self.effect@ }
    }
}

impl Clone for Ability {
    fn clone(&self) -> (r: Self)
        ensures
            r@ == self@,
    {
        Ability { title: self.title.clone(), effect: self.effect.clone() }
    }
}

/// View of an optional ability.
pub open spec fn opt_ability(a: Option<Ability>) -> Option<AbilityView> {
    match a {
        Some(x) => Some(x@),
        None => None,
    }
}

/// View of a list of attacks.
pub open spec fn attacks_view(v: Seq<Attack>) -> Seq<AttackView> {
    v.map_values(|a: Attack| a@)
}

/// Copies a list of attacks.
pub fn clone_attacks(v: &Vec<Attack>) -> (r: Vec<Attack>)
    ensures
        attacks_view(r@) == attacks_view(v@),
{
    let mut out: Vec<Attack> = Vec::new();
    let mut i: usize = 0;
    while i < v.len()
        invariant
            i <= v.len(),
            out@.len() == i,
            forall|j: int| 0 <= j < i ==> out@[j]@ == v@[j]@,
        decreases v.len() - i,
    {
        out.push(v[i].clone());
        i += 1;
    }
    assert(attacks_view(out@) =~= attacks_view(v@));
    out
}

/// A creature card.
#[derive(Debug, PartialEq, Eq, Hash)]
pub struct PokemonCard {
    pub id: String,
    pub name: String,
    /// 0 for a basic creature, 1 and 2 for its evolutions.
    pub stage: u8,
    /// The name of the form that this one evolves from.
    pub evolves_from: Option<String>,
    /// The name of the basic form at the root of the lineage.
    pub basic_form: Option<String>,
    pub hp: u32,
    pub energy_type: EnergyType,
    /// The element whose attacks hurt this creature more.
    pub weakness: Option<EnergyType>,
    pub ability: Option<Ability>,
    pub attacks: Vec<Attack>,
    pub retreat_cost: Vec<EnergyType>,
}

/// A creature card as contracts see it.
pub struct PokemonCardView {
    pub id: Seq<char>,
    pub name: Seq<char>,
    pub stage: u8,
    pub evolves_from: Option<Seq<char>>,
    pub basic_form: Option<Seq<char>>,
    pub hp: u32,
    pub energy_type: EnergyType,
    pub weakness: Option<EnergyType>,
    pub ability: Option<AbilityView>,
    pub attacks: Seq<AttackView>,
    pub retreat_cost: Seq<EnergyType>,
}

impl View for PokemonCard {
    type V = PokemonCardView;

    open spec fn view(&self) -> PokemonCardView {
        PokemonCardView {
            id: self.id@,
            name: self.name@,
            stage: self.stage,
            evolves_from: opt_text(self.evolves_from),
            basic_form: opt_text(self.basic_form),
            hp: self.hp,
            energy_type: self.energy_type,
            weakness: self.weakness,
            ability: opt_ability(self.ability),
            attacks: attacks_view(self.attacks@),
            retreat_cost: self.retreat_cost@,
        }
    }
}

impl Clone for PokemonCard {
    fn clone(&self) -> (r: Self)
        ensures
            r@ == self@,
    {
        let ability = match &self.ability {
            Some(a) => Some(a.clone()),
            None => None,
        };
        PokemonCard {
            id: self.id.clone(),
            name: self.name.clone(),
            stage: self.stage,
            evolves_from: clone_opt_text(&self.evolves_from),
            basic_form: clone_opt_text(&self.basic_form),
            hp: self.hp,
            energy_type: self.energy_type,
            weakness: self.weakness,
            ability,
            attacks: clone_attacks(&self.attacks),
            retreat_cost: clone_energies(&self.retreat_cost),
        }
    }
}

/// A trainer card.
#[derive(Debug, PartialEq, Eq, Hash)]
pub struct TrainerCard {
    pub id: String,
    pub name: String,
    pub trainer_card_type: TrainerType,
}

/// A trainer card as contracts see it.
pub struct TrainerCardView {
    pub id: Seq<char>,
    pub name: Seq<char>,
    pub trainer_card_type: TrainerType,
}

impl View for TrainerCard {
    type V = TrainerCardView;

    open spec fn view(&self) -> TrainerCardView {
        TrainerCardView {
            id: self.id@,
            name: self.name@,
            trainer_card_type: self.trainer_card_type,
        }
    }
}

impl Clone for TrainerCard {
    fn clone(&self) -> (r: Self)
        ensures
            r@ == self@,
    {
        TrainerCard {
            id: self.id.clone(),
            name: self.name.clone(),
            trainer_card_type: self.trainer_card_type,
        }
    }
}

/// A card: a creature or a trainer.
#[derive(Debug, PartialEq, Eq, Hash)]
pub enum Card {
    Pokemon(PokemonCard),
    Trainer(TrainerCard),
}

/// A card as contracts see it.
pub enum CardView {
    Pokemon(PokemonCardView),
    Trainer(TrainerCardView),
}

impl View for Card {
    type V = CardView;

    open spec fn view(&self) -> CardView {
        match self {
            Card::Pokemon(p) => CardView::Pokemon(p@),
            Card::Trainer(t) => CardView::Trainer(t@),
        }
    }
}

impl Clone for Card {
    fn clone(&self) -> (r: Self)
        ensures
            r@ == self@,
    {
        match self {
            Card::Pokemon(p) => Card::Pokemon(p.clone()),
            Card::Trainer(t) => Card::Trainer(t.clone()),
        }
    }
}

impl CardView {
    /// The stable identity of the card.
    pub open spec fn id(self) -> Seq<char> {
        match self {
            CardView::Pokemon(p) => p.id,
            CardView::Trainer(t) => t.id,
        }
    }

    pub open spec fn name(self) -> Seq<char> {
        match self {
            CardView::Pokemon(p) => p.name,
            CardView::Trainer(t) => t.name,
        }
    }

    /// The element of a creature; trainers have none.
    pub open spec fn energy_type(self) -> Option<EnergyType> {
        match self {
            CardView::Pokemon(p) => Some(p.energy_type),
            CardView::Trainer(_) => None,
        }
    }

    /// Whether the card is a creature of stage 0.
    pub open spec fn is_basic(self) -> bool {
        self matches CardView::Pokemon(p) && p.stage == 0
    }

    /// Whether the card is a creature whose name ends in " ex".
    pub open spec fn is_ex(self) -> bool {
        self matches CardView::Pokemon(p) && has_ex_suffix(p.name)
    }
}

impl Card {
    pub fn get_id(&self) -> (id: String)
        ensures
            id@ == self@.id(),
    {
        match self {
            Card::Pokemon(p) => p.id.clone(),
            Card::Trainer(t) => t.id.clone(),
        }
    }

    pub fn get_name(&self) -> (name: String)
        ensures
            name@ == self@.name(),
    {
        match self {
            Card::Pokemon(p) => p.name.clone(),
            Card::Trainer(t) => t.name.clone(),
        }
    }

    pub fn get_type(&self) -> (t: Option<EnergyType>)
        ensures
            t == self@.energy_type(),
    {
        match self {
            Card::Pokemon(p) => Some(p.energy_type),
            Card::Trainer(_) => None,
        }
    }

    pub fn is_basic(&self) -> (b: bool)
        ensures
            b == self@.is_basic(),
    {
        match self {
            Card::Pokemon(p) => p.stage == 0,
            Card::Trainer(_) => false,
        }
    }

    pub fn is_ex(&self) -> (b: bool)
        ensures
            b == self@.is_ex(),
    {
        match self {
            Card::Pokemon(p) => ends_with_ex(p.name.as_str()),
            Card::Trainer(_) => false,
        }
    }
}

/// View of a list of cards.
pub open spec fn cards_view(v: Seq<Card>) -> Seq<CardView> {
    v.map_values(|c: Card| c@)
}

/// Copies a list of cards.
pub fn clone_cards(v: &Vec<Card>) -> (r: Vec<Card>)
    ensures
        cards_view(r@) == cards_view(v@),
{
    let mut out: Vec<Card> = Vec::new();
    let mut i: usize = 0;
    while i < v.len()
        invariant
            i <= v.len(),
            out@.len() == i,
            forall|j: int| 0 <= j < i ==> out@[j]@ == v@[j]@,
        decreases v.len() - i,
    {
        out.push(v[i].clone());
        i += 1;
    }
    assert(cards_view(out@) =~= cards_view(v@));
    out
}

/// Whether position `k` holds the first card of a list with a given
/// identity.
pub open spec fn is_first_with_id(cards: Seq<CardView>, id: Seq<char>, k: int) -> bool {
    &&& 0 <= k < cards.len()
    &&& cards[k].id() == id
    &&& forall|j: int| 0 <= j < k ==> (#[trigger] cards[j]).id() != id
}

/// The position of the first card with a given identity in a list.
pub open spec fn first_with_id(cards: Seq<CardView>, id: Seq<char>) -> Option<int> {
    if exists|k: int| is_first_with_id(cards, id, k) {
        Some(choose|k: int| is_first_with_id(cards, id, k))
    } else {
        None
    }
}

/// Finds the first card with a given identity in a list.
pub fn find_by_id(cards: &Vec<Card>, id: &str) -> (found: Option<usize>)
    ensures
        match found {
            Some(k) => first_with_id(cards_view(cards@), id@) == Some(k as int) && k < cards.len(),
            None => first_with_id(cards_view(cards@), id@).is_none(),
        },
{
    let ghost view = cards_view(cards@);
    let mut k: usize = 0;
    while k < cards.len()
        invariant
            k <= cards.len(),
            view == cards_view(cards@),
            forall|j: int| 0 <= j < k ==> (#[trigger] view[j]).id() != id@,
        decreases cards.len() - k,
    {
        let card_id = cards[k].get_id();
        if str_eq(card_id.as_str(), id) {
            proof {
                assert(is_first_with_id(view, id@, k as int));
                let other = choose|j: int| is_first_with_id(view, id@, j);
                assert(other == k as int) by {
                    if other < k {
                        assert(view[other].id() != id@);
                    } else if other > k {
                        assert(view[k as int].id() != id@);
                    }
                }
            }
            return Some(k);
        }
        k += 1;
    }
    None
}

/// Whether a card is a creature with a given name.
pub open spec fn is_creature_named(card: CardView, name: Seq<char>) -> bool {
    card is Pokemon && card.name() == name
}

/// Whether position `k` holds the first creature of a list with a given
/// name.
pub open spec fn is_first_creature_named(cards: Seq<CardView>, name: Seq<char>, k: int) -> bool {
    &&& 0 <= k < cards.len()
    &&& is_creature_named(cards[k], name)
    &&& forall|j: int| 0 <= j < k ==> !is_creature_named(#[trigger] cards[j], name)
}

/// The position of the first creature with a given name in a list.
pub open spec fn first_creature_named(cards: Seq<CardView>, name: Seq<char>) -> Option<int> {
    if exists|k: int| is_first_creature_named(cards, name, k) {
        Some(choose|k: int| is_first_creature_named(cards, name, k))
    } else {
        None
    }
}

/// Finds the first creature with a given name in a list.
pub fn find_creature_named(cards: &Vec<Card>, name: &str) -> (found: Option<usize>)
    ensures
        match found {
            Some(k) => first_creature_named(cards_view(cards@), name@) == Some(k as int) && k
                < cards.len(),
            None => first_creature_named(cards_view(cards@), name@).is_none(),
        },
{
    let ghost view = cards_view(cards@);
    let mut k: usize = 0;
    while k < cards.len()
        invariant
            k <= cards.len(),
            view == cards_view(cards@),
            forall|j: int| 0 <= j < k ==> !is_creature_named(#[trigger] view[j], name@),
        decreases cards.len() - k,
    {
        let matches_name = match &cards[k] {
            Card::Pokemon(creature) => str_eq(creature.name.as_str(), name),
            Card::Trainer(_) => false,
        };
        assert(matches_name == is_creature_named(view[k as int], name@));
        if matches_name {
            proof {
                assert(is_first_creature_named(view, name@, k as int));
                let other = choose|j: int| is_first_creature_named(view, name@, j);
                assert(other == k as int) by {
                    if other < k {
                        assert(!is_creature_named(view[other], name@));
                    } else if other > k {
                        assert(!is_creature_named(view[k as int], name@));
                    }
                }
            }
            return Some(k);
        }
        k += 1;
    }
    None
}

/// Whether two optional strings hold the same.
pub fn same_opt_text(a: &Option<String>, b: &Option<String>) -> (same: bool)
    ensures
        same == (opt_text(*a) == opt_text(*b)),
{
    match (a, b) {
        (Some(x), Some(y)) => str_eq(x.as_str(), y.as_str()),
        (None, None) => true,
        _ => false,
    }
}

/// Whether two lists of energies hold the same energies in the same order.
pub fn same_energies(a: &Vec<EnergyType>, b: &Vec<EnergyType>) -> (same: bool)
    ensures
        same == (a@ == b@),
{
    if a.len() != b.len() {
        return false;
    }
    let mut i: usize = 0;
    while i < a.len()
        invariant
            i <= a.len(),
            a.len() == b.len(),
            forall|j: int| 0 <= j < i ==> a@[j] == b@[j],
        decreases a.len() - i,
    {
        if a[i] != b[i] {
            return false;
        }
        i += 1;
    }
    assert(a@ =~= b@);
    true
}

impl Attack {
    /// Whether two attacks have the same content.
    pub fn is_same_as(&self, other: &Attack) -> (same: bool)
        ensures
            same == (self@ == other@),
    {
        same_energies(&self.energy_required, &other.energy_required) && str_eq(
            self.title.as_str(),
            other.title.as_str(),
        ) && self.fixed_damage == other.fixed_damage && same_opt_text(&self.effect, &other.effect)
    }
}

/// Whether two lists of attacks hold the same attacks in the same order.
pub fn same_attacks(a: &Vec<Attack>, b: &Vec<Attack>) -> (same: bool)
    ensures
        same == (attacks_view(a@) == attacks_view(b@)),
{
    if a.len() != b.len() {
        assert(attacks_view(a@).len() != attacks_view(b@).len());
        return false;
    }
    let mut i: usize = 0;
    while i < a.len()
        invariant
            i <= a.len(),
            a.len() == b.len(),
            forall|j: int| 0 <= j < i ==> a@[j]@ == b@[j]@,
        decreases a.len() - i,
    {
        if !a[i].is_same_as(&b[i]) {
            assert(attacks_view(a@)[i as int] != attacks_view(b@)[i as int]);
            return false;
        }
        i += 1;
    }
    assert(attacks_view(a@) =~= attacks_view(b@));
    true
}

impl Ability {
    /// Whether two abilities have the same content.
    pub fn is_same_as(&self, other: &Ability) -> (same: bool)
        ensures
            same == (self@ == other@),
    {
        str_eq(self.title.as_str(), other.title.as_str()) && str_eq(
            self.effect.as_str(),
            other.effect.as_str(),
        )
    }
}

/// Whether two optional abilities hold the same.
pub fn same_opt_ability(a: &Option<Ability>, b: &Option<Ability>) -> (same: bool)
    ensures
        same == (opt_ability(*a) == opt_ability(*b)),
{
    match (a, b) {
        (Some(x), Some(y)) => x.is_same_as(y),
        (None, None) => true,
        _ => false,
    }
}

impl PokemonCard {
    /// Whether two creature cards have the same content.
    pub fn is_same_as(&self, other: &PokemonCard) -> (same: bool)
        ensures
            same == (self@ == other@),
    {
        str_eq(self.id.as_str(), other.id.as_str()) && str_eq(
            self.name.as_str(),
            other.name.as_str(),
        ) && self.stage == other.stage && same_opt_text(&self.evolves_from, &other.evolves_from)
            && same_opt_text(&self.basic_form, &other.basic_form) && self.hp == other.hp
            && self.energy_type == other.energy_type && self.weakness == other.weakness
            && same_opt_ability(&self.ability, &other.ability) && same_attacks(
            &self.attacks,
            &other.attacks,
        ) && same_energies(&self.retreat_cost, &other.retreat_cost)
    }
}

impl TrainerCard {
    /// Whether two trainer cards have the same content.
    pub fn is_same_as(&self, other: &TrainerCard) -> (same: bool)
        ensures
            same == (self@ == other@),
    {
        str_eq(self.id.as_str(), other.id.as_str()) && str_eq(
            self.name.as_str(),
            other.name.as_str(),
        ) && self.trainer_card_type == other.trainer_card_type
    }
}

impl Card {
    /// Whether two cards have the same content.
    pub fn is_same_as(&self, other: &Card) -> (same: bool)
        ensures
            same == (self@ == other@),
    {
        match (self, other) {
            (Card::Pokemon(a), Card::Pokemon(b)) => a.is_same_as(b),
            (Card::Trainer(a), Card::Trainer(b)) => a.is_same_as(b),
            _ => false,
        }
    }
}

} // verus!
