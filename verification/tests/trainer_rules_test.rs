use deckgym::actions::SimpleAction;
use deckgym::hooks::to_playable_card;
use deckgym::models::Attack;
use deckgym::models::Card;
use deckgym::models::EnergyType;
use deckgym::models::PlayedCard;
use deckgym::models::PokemonCard;
use deckgym::models::TrainerCard;
use deckgym::models::TrainerType;
use deckgym::move_generation::generate_possible_trainer_actions;
use deckgym::move_generation::trainer_move_generation_implementation;
use deckgym::state::Deck;
use deckgym::state::State;
use deckgym::tool_ids::ToolId;

#[allow(dead_code)]
fn attack(title: &str, cost: Vec<EnergyType>, damage: u32, effect: Option<&str>) -> Attack {
    Attack {
        energy_required: cost,
        title: title.to_string(),
        fixed_damage: damage,
        effect: effect.map(|text| text.to_string()),
    }
}

#[allow(dead_code)]
fn creature(
    id: &str,
    name: &str,
    hp: u32,
    energy_type: EnergyType,
    weakness: Option<EnergyType>,
    attacks: Vec<Attack>,
) -> Card {
    Card::Pokemon(PokemonCard {
        id: id.to_string(),
        name: name.to_string(),
        stage: 0,
        evolves_from: None,
        basic_form: None,
        hp,
        energy_type,
        weakness,
        ability: None,
        attacks,
        retreat_cost: vec![EnergyType::Colorless],
    })
}

#[allow(dead_code)]
fn bulbasaur() -> Card {
    creature(
        "A1 001",
        "Bulbasaur",
        70,
        EnergyType::Grass,
        Some(EnergyType::Fire),
        vec![attack("Vine Whip", vec![EnergyType::Grass, EnergyType::Colorless], 40, None)],
    )
}

#[allow(dead_code)]
fn squirtle() -> Card {
    creature(
        "A1 053",
        "Squirtle",
        60,
        EnergyType::Water,
        Some(EnergyType::Lightning),
        vec![attack("Water Gun", vec![EnergyType::Water], 20, None)],
    )
}

#[allow(dead_code)]
fn exeggcute() -> Card {
    creature(
        "A1 021",
        "Exeggcute",
        50,
        EnergyType::Grass,
        Some(EnergyType::Fire),
        vec![attack("Seed Bomb", vec![EnergyType::Grass], 20, None)],
    )
}

#[allow(dead_code)]
fn koffing() -> Card {
    creature(
        "A1 176",
        "Koffing",
        70,
        EnergyType::Darkness,
        Some(EnergyType::Fighting),
        vec![attack("Suffocating Gas", vec![EnergyType::Darkness], 20, None)],
    )
}

#[allow(dead_code)]
fn trainer(id: &str, name: &str, kind: TrainerType) -> TrainerCard {
    TrainerCard { id: id.to_string(), name: name.to_string(), trainer_card_type: kind }
}

#[allow(dead_code)]
fn deck_of(card: &Card, copies: usize, energy: EnergyType) -> Deck {
    Deck { cards: vec![card.clone(); copies], energy_types: vec![energy] }
}

#[allow(dead_code)]
fn in_turn(turn: u8) -> State {
    let mut state = State::default();
    state.turn_count = turn;
    state
}

fn item(id: &str) -> TrainerCard {
    trainer(id, "Item", TrainerType::Item)
}

fn supporter(id: &str) -> TrainerCard {
    trainer(id, "Supporter", TrainerType::Supporter)
}

fn damaged(card: &Card, by: u32) -> PlayedCard {
    let mut played = to_playable_card(card, false);
    played.apply_damage(by);
    played
}

fn playable(state: &State, card: &TrainerCard) -> bool {
    match generate_possible_trainer_actions(state, card) {
        Some(moves) => {
            if moves.is_empty() {
                false
            } else {
                assert_eq!(moves, vec![SimpleAction::Play { trainer_card: card.clone() }]);
                true
            }
        }
        None => panic!("no rule for {}", card.id),
    }
}

#[test]
fn no_trainer_during_setup() {
    let state = State::default();
    for id in ["P-A 005", "P-A 001", "A1 219", "A2 147", "XX 000"] {
        let card = item(id);
        assert_eq!(generate_possible_trainer_actions(&state, &card), Some(vec![]));
    }
}

#[test]
fn one_supporter_a_turn() {
    let mut state = in_turn(3);
    let research = supporter("P-A 007");
    let ball = item("P-A 005");
    assert!(playable(&state, &research));
    state.has_played_support = true;
    assert!(!playable(&state, &research));
    assert!(playable(&state, &ball));
    // The rule for all supporters comes before the card's own rule.
    assert_eq!(generate_possible_trainer_actions(&state, &supporter("XX 000")), Some(vec![]));
    assert_eq!(trainer_move_generation_implementation(&state, &supporter("XX 000")), None);
}

#[test]
fn a_card_without_a_rule_is_not_supported() {
    let state = in_turn(3);
    assert_eq!(generate_possible_trainer_actions(&state, &item("XX 000")), None);
    assert_eq!(generate_possible_trainer_actions(&state, &item("A1 001")), None);
    assert_eq!(generate_possible_trainer_actions(&state, &item("A1 177")), None);
    assert_eq!(generate_possible_trainer_actions(&state, &item("")), None);
    let unknown_tool = trainer("A9 999", "Mystery Tool", TrainerType::Tool);
    assert_eq!(generate_possible_trainer_actions(&state, &unknown_tool), None);
}

#[test]
fn cards_that_can_always_be_played() {
    let state = in_turn(3);
    for id in [
        "A4 158", "A4 198", "A4b 336", "A4b 337", "P-A 002", "P-A 005", "A2b 111", "P-A 006",
        "P-A 007", "A4b 373", "A1 223", "A1 270", "A4b 334", "A4b 335", "A1a 065", "A1a 068",
        "A1a 082", "A4b 346", "A4b 347", "A2b 071", "A2b 090", "A4b 352", "A4b 353", "A2 155",
        "A2 195", "A4b 344", "A4b 345",
    ] {
        assert!(playable(&state, &item(id)), "{} can always be played", id);
    }
}

#[test]
fn potion_needs_a_damaged_creature() {
    let potion = item("P-A 001");
    let mut state = in_turn(3);
    assert!(!playable(&state, &potion));
    state.in_play_pokemon[0][0] = Some(to_playable_card(&bulbasaur(), false));
    assert!(!playable(&state, &potion));
    state.in_play_pokemon[1][0] = Some(damaged(&squirtle(), 10));
    assert!(!playable(&state, &potion));
    state.in_play_pokemon[0][3] = Some(damaged(&squirtle(), 10));
    assert!(playable(&state, &potion));
    state.current_player = 1;
    assert!(playable(&state, &potion));
}

#[test]
fn a_rule_asked_twice_answers_the_same_and_follows_the_state() {
    let potion = item("P-A 001");
    let mut state = in_turn(3);
    state.in_play_pokemon[0][0] = Some(damaged(&bulbasaur(), 20));
    state.in_play_pokemon[0][1] = Some(to_playable_card(&squirtle(), false));
    let before = state.clone();

    let first = generate_possible_trainer_actions(&state, &potion);
    let second = generate_possible_trainer_actions(&state, &potion);
    assert_eq!(first, second);
    assert_eq!(first, Some(vec![SimpleAction::Play { trainer_card: potion.clone() }]));
    assert_eq!(state, before);

    // Heal the only damaged creature: the card is no longer playable.
    state.in_play_pokemon[0][0].as_mut().unwrap().heal(20);
    assert_eq!(generate_possible_trainer_actions(&state, &potion), Some(vec![]));
    assert_eq!(generate_possible_trainer_actions(&state, &potion), Some(vec![]));
}

#[test]
fn erika_needs_a_damaged_grass_creature() {
    let mut state = in_turn(3);
    state.in_play_pokemon[0][0] = Some(damaged(&squirtle(), 10));
    state.in_play_pokemon[0][1] = Some(to_playable_card(&bulbasaur(), false));
    for id in ["A1 219", "A1 266", "A4b 328", "A4b 329"] {
        assert!(!playable(&state, &supporter(id)));
    }
    state.in_play_pokemon[0][1] = Some(damaged(&bulbasaur(), 10));
    for id in ["A1 219", "A1 266", "A4b 328", "A4b 329"] {
        assert!(playable(&state, &supporter(id)));
    }
}

#[test]
fn misty_needs_a_water_creature() {
    let mut state = in_turn(3);
    state.in_play_pokemon[0][0] = Some(to_playable_card(&bulbasaur(), false));
    state.in_play_pokemon[1][0] = Some(to_playable_card(&squirtle(), false));
    assert!(!playable(&state, &supporter("A1 220")));
    state.in_play_pokemon[0][2] = Some(to_playable_card(&squirtle(), false));
    assert!(playable(&state, &supporter("A1 220")));
    assert!(playable(&state, &supporter("A1 267")));
}

#[test]
fn irida_needs_a_damaged_creature_with_water_energy() {
    let mut state = in_turn(3);
    let mut card = damaged(&bulbasaur(), 10);
    state.in_play_pokemon[0][0] = Some(card.clone());
    assert!(!playable(&state, &supporter("A2a 072")));
    card.attach_energy(&EnergyType::Water, 1);
    state.in_play_pokemon[0][0] = Some(card.clone());
    for id in ["A2a 072", "A2a 087", "A4b 330", "A4b 331"] {
        assert!(playable(&state, &supporter(id)));
    }
    card.heal(10);
    state.in_play_pokemon[0][0] = Some(card);
    assert!(!playable(&state, &supporter("A2a 072")));
}

#[test]
fn lillie_needs_a_damaged_stage_two_creature() {
    let mut state = in_turn(3);
    state.in_play_pokemon[0][0] = Some(damaged(&bulbasaur(), 10));
    assert!(!playable(&state, &supporter("A3 155")));
    let mut venusaur = bulbasaur();
    if let Card::Pokemon(creature) = &mut venusaur {
        creature.stage = 2;
    }
    state.in_play_pokemon[0][1] = Some(to_playable_card(&venusaur, false));
    assert!(!playable(&state, &supporter("A3 155")));
    state.in_play_pokemon[0][1] = Some(damaged(&venusaur, 10));
    for id in ["A3 155", "A3 197", "A3 209", "A4b 348", "A4b 349", "A4b 374"] {
        assert!(playable(&state, &supporter(id)));
    }
}

#[test]
fn koga_needs_weezing_or_muk_in_the_active_slot() {
    let koga = supporter("A1 222");
    let mut state = in_turn(3);
    assert!(!playable(&state, &koga));
    let weezing = creature("A1 177", "Weezing", 110, EnergyType::Darkness, None, vec![]);
    let weezing_art = creature("A1 243", "Weezing", 110, EnergyType::Darkness, None, vec![]);
    let muk = creature("A1 175", "Muk", 130, EnergyType::Darkness, None, vec![]);
    state.in_play_pokemon[0][0] = Some(to_playable_card(&koffing(), false));
    state.in_play_pokemon[0][1] = Some(to_playable_card(&weezing, false));
    assert!(!playable(&state, &koga));
    for card in [weezing, weezing_art, muk] {
        state.in_play_pokemon[0][0] = Some(to_playable_card(&card, false));
        assert!(playable(&state, &koga));
        assert!(playable(&state, &supporter("A1 269")));
    }
}

#[test]
fn sabrina_needs_a_bench_on_the_other_side() {
    let mut state = in_turn(3);
    state.in_play_pokemon[0][1] = Some(to_playable_card(&bulbasaur(), false));
    state.in_play_pokemon[1][0] = Some(to_playable_card(&squirtle(), false));
    assert!(!playable(&state, &supporter("A1 225")));
    state.in_play_pokemon[1][3] = Some(to_playable_card(&squirtle(), false));
    for id in ["A1 225", "A1 272", "A4b 338", "A4b 339"] {
        assert!(playable(&state, &supporter(id)));
    }
}

#[test]
fn cyrus_needs_a_damaged_creature_on_the_other_bench() {
    let mut state = in_turn(3);
    state.in_play_pokemon[1][0] = Some(damaged(&squirtle(), 10));
    state.in_play_pokemon[1][1] = Some(to_playable_card(&squirtle(), false));
    state.in_play_pokemon[0][1] = Some(damaged(&squirtle(), 10));
    assert!(!playable(&state, &supporter("A2 150")));
    state.in_play_pokemon[1][2] = Some(damaged(&squirtle(), 10));
    for id in ["A2 150", "A2 190", "A4b 326", "A4b 327"] {
        assert!(playable(&state, &supporter(id)));
    }
}

#[test]
fn rare_candy_needs_a_pair_and_a_later_turn() {
    let candy = item("A3 144");
    let mut venusaur = bulbasaur();
    if let Card::Pokemon(creature) = &mut venusaur {
        creature.stage = 2;
        creature.name = "Venusaur".to_string();
        creature.basic_form = Some("Bulbasaur".to_string());
    }
    let mut state = in_turn(3);
    state.in_play_pokemon[0][2] = Some(to_playable_card(&bulbasaur(), false));
    assert!(!playable(&state, &candy));
    state.hands[0].push(squirtle());
    state.hands[0].push(venusaur.clone());
    for id in ["A3 144", "A4b 314", "A4b 315", "A4b 379"] {
        assert!(playable(&state, &item(id)));
    }
    state.turn_count = 2;
    assert!(!playable(&state, &candy));
    state.turn_count = 3;
    state.in_play_pokemon[0][2] = Some(to_playable_card(&bulbasaur(), true));
    assert!(!playable(&state, &candy));
    state.in_play_pokemon[0][2] = Some(to_playable_card(&squirtle(), false));
    assert!(!playable(&state, &candy));
    // The other player's hand does not count.
    state.in_play_pokemon[1][0] = Some(to_playable_card(&bulbasaur(), false));
    state.current_player = 1;
    assert!(!playable(&state, &candy));
}

#[test]
fn pokemon_center_lady_needs_damage_or_a_status_condition() {
    let mut state = in_turn(3);
    let mut card = to_playable_card(&bulbasaur(), false);
    state.in_play_pokemon[0][0] = Some(card.clone());
    assert!(!playable(&state, &supporter("A2b 070")));
    card.asleep = true;
    state.in_play_pokemon[0][0] = Some(card.clone());
    assert!(playable(&state, &supporter("A2b 070")));
    card.asleep = false;
    card.poisoned = true;
    state.in_play_pokemon[0][0] = Some(card.clone());
    assert!(playable(&state, &supporter("A2b 089")));
    card.poisoned = false;
    card.paralyzed = true;
    state.in_play_pokemon[0][0] = Some(card.clone());
    assert!(playable(&state, &supporter("A2b 089")));
    state.in_play_pokemon[0][0] = Some(damaged(&bulbasaur(), 10));
    assert!(playable(&state, &supporter("A2b 070")));
}

#[test]
fn elemental_switch_needs_an_active_creature_and_energy_on_the_bench() {
    let switch = item("A4 151");
    let mut state = in_turn(3);
    let mut source = to_playable_card(&squirtle(), false);
    source.attach_energy(&EnergyType::Water, 1);
    state.in_play_pokemon[0][1] = Some(source.clone());
    assert!(!playable(&state, &switch));
    state.in_play_pokemon[0][0] = Some(to_playable_card(&bulbasaur(), false));
    for id in ["A4 151", "A4b 310", "A4b 311"] {
        assert!(playable(&state, &item(id)));
    }
    // Energy on the active creature does not count, nor does grass energy.
    let mut grass = to_playable_card(&bulbasaur(), false);
    grass.attach_energy(&EnergyType::Grass, 2);
    state.in_play_pokemon[0][1] = Some(grass);
    state.in_play_pokemon[0][0] = Some(source);
    assert!(!playable(&state, &switch));
    for energy in [EnergyType::Fire, EnergyType::Lightning] {
        let mut bench = to_playable_card(&bulbasaur(), false);
        bench.attach_energy(&energy, 1);
        state.in_play_pokemon[0][3] = Some(bench);
        assert!(playable(&state, &switch));
    }
}

#[test]
fn repel_needs_a_basic_active_creature_and_a_bench_on_the_other_side() {
    let repel = item("A3a 064");
    let mut state = in_turn(3);
    state.in_play_pokemon[1][0] = Some(to_playable_card(&squirtle(), false));
    assert!(!playable(&state, &repel));
    state.in_play_pokemon[1][1] = Some(to_playable_card(&squirtle(), false));
    assert!(playable(&state, &repel));
    let mut evolved = squirtle();
    if let Card::Pokemon(creature) = &mut evolved {
        creature.stage = 1;
    }
    state.in_play_pokemon[1][0] = Some(to_playable_card(&evolved, false));
    assert!(!playable(&state, &repel));
    state.in_play_pokemon[1][0] = None;
    assert!(!playable(&state, &repel));
}

#[test]
fn pokemon_communication_needs_a_creature_in_hand_and_in_deck() {
    let mut state = in_turn(3);
    let potion = Card::Trainer(item("P-A 001"));
    state.hands[0].push(potion.clone());
    state.decks[0].cards.push(potion.clone());
    assert!(!playable(&state, &item("A2 146")));
    state.hands[0].push(bulbasaur());
    assert!(!playable(&state, &item("A2 146")));
    state.decks[0].cards.push(squirtle());
    for id in ["A2 146", "A4b 316", "A4b 317"] {
        assert!(playable(&state, &item(id)));
    }
    state.hands[0].clear();
    assert!(!playable(&state, &item("A2 146")));
}

#[test]
fn gladion_counts_the_two_named_cards_in_play_and_in_the_discard_pile() {
    let gladion = supporter("A3a 067");
    let null = creature("A3a 060", "Type: Null", 80, EnergyType::Colorless, None, vec![]);
    let silvally = creature("A3a 061", "Silvally", 110, EnergyType::Colorless, None, vec![]);
    let mut state = in_turn(3);
    assert!(playable(&state, &gladion));

    // Two of one card alone do not exhaust the supply.
    state.discard_piles[0].push(null.clone());
    state.discard_piles[0].push(null.clone());
    assert!(playable(&state, &gladion));

    // One card in play on top of the other counts for both names.
    let evolved = PlayedCard::new(silvally.clone(), 110, 110, vec![], false, vec![null.clone()]);
    state.in_play_pokemon[0][1] = Some(evolved);
    assert!(playable(&state, &gladion));
    state.in_play_pokemon[0][3] = Some(to_playable_card(&silvally, false));
    assert!(!playable(&state, &gladion));
    assert!(!playable(&state, &supporter("A3a 081")));

    // The other player's cards do not count.
    state.current_player = 1;
    assert!(playable(&state, &gladion));
    state.current_player = 0;
    state.in_play_pokemon[0][3] = None;
    assert!(playable(&state, &gladion));
    state.discard_piles[0].push(silvally.clone());
    assert!(!playable(&state, &gladion));
}

#[test]
fn lusamine_needs_points_an_ultra_beast_and_discarded_energy() {
    let lusamine = supporter("A3a 069");
    let beast = creature("A3a 006", "Kartana", 70, EnergyType::Grass, None, vec![]);
    let mut state = in_turn(3);
    state.points = [0, 1];
    state.in_play_pokemon[0][2] = Some(to_playable_card(&beast, false));
    state.discard_energies[0].push(EnergyType::Grass);
    for id in ["A3a 069", "A3a 083", "A4b 350", "A4b 351", "A4b 375"] {
        assert!(playable(&state, &supporter(id)));
    }
    state.points = [3, 0];
    assert!(!playable(&state, &lusamine));
    state.points = [0, 2];
    state.discard_energies[0].clear();
    assert!(!playable(&state, &lusamine));
    state.discard_energies[0].push(EnergyType::Fire);
    state.in_play_pokemon[0][2] = Some(to_playable_card(&bulbasaur(), false));
    assert!(!playable(&state, &lusamine));
}

#[test]
fn lyra_needs_a_damaged_active_creature_and_a_bench() {
    let lyra = supporter("A4 157");
    let mut state = in_turn(3);
    state.in_play_pokemon[0][0] = Some(damaged(&bulbasaur(), 10));
    assert!(!playable(&state, &lyra));
    state.in_play_pokemon[0][2] = Some(to_playable_card(&squirtle(), false));
    for id in ["A4 157", "A4 197", "A4b 332", "A4b 333"] {
        assert!(playable(&state, &supporter(id)));
    }
    state.in_play_pokemon[0][0] = Some(to_playable_card(&bulbasaur(), false));
    assert!(!playable(&state, &lyra));
    state.in_play_pokemon[0][0] = None;
    assert!(!playable(&state, &lyra));
}

#[test]
fn eevee_bag_needs_a_creature_that_evolved_from_eevee() {
    let eevee = creature("A1 206", "Eevee", 60, EnergyType::Colorless, None, vec![]);
    let vaporeon = creature("A1 080", "Vaporeon", 120, EnergyType::Water, None, vec![]);
    let mut state = in_turn(3);
    state.in_play_pokemon[0][0] = Some(to_playable_card(&eevee, false));
    assert!(!playable(&state, &item("A3b 066")));
    state.in_play_pokemon[0][1] =
        Some(PlayedCard::new(vaporeon, 120, 120, vec![], false, vec![eevee.clone()]));
    for id in ["A3b 066", "A3b 107", "A4b 308", "A4b 309"] {
        assert!(playable(&state, &item(id)));
    }
}

#[test]
fn a_tool_needs_a_card_that_can_take_it() {
    let cape = trainer("A3 147", "Leaf Cape", TrainerType::Tool);
    let helmet = trainer("A2 148", "Rocky Helmet", TrainerType::Tool);
    let mut state = in_turn(3);
    assert!(!playable(&state, &helmet));
    state.in_play_pokemon[0][0] = Some(to_playable_card(&squirtle(), false));
    assert!(playable(&state, &helmet));
    assert!(!playable(&state, &cape));
    let mut equipped = to_playable_card(&bulbasaur(), false);
    equipped.attached_tool = Some(ToolId::A2148RockyHelmet);
    state.in_play_pokemon[0][1] = Some(equipped);
    assert!(!playable(&state, &cape));
    state.in_play_pokemon[0][2] = Some(to_playable_card(&bulbasaur(), false));
    assert!(playable(&state, &cape));
    // A tool goes by the tool list even where its identity names another card.
    let odd = trainer("P-A 001", "Potion", TrainerType::Tool);
    assert_eq!(trainer_move_generation_implementation(&state, &odd), None);
}
