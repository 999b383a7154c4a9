use deckgym::actions::apply_action_with_pick;
use deckgym::actions::Action;
use deckgym::actions::SimpleAction;
use deckgym::effects::CardEffect;
use deckgym::generate_possible_actions;
use deckgym::hooks::to_playable_card;
use deckgym::models::Ability;
use deckgym::models::Attack;
use deckgym::models::Card;
use deckgym::models::EnergyType;
use deckgym::models::PlayedCard;
use deckgym::models::PokemonCard;
use deckgym::models::TrainerCard;
use deckgym::models::TrainerType;
use deckgym::state::Deck;
use deckgym::state::GameOutcome;
use deckgym::state::State;
use deckgym::tool_ids::ToolId;

#[allow(dead_code)]
fn attack(title: &str, cost: Vec<EnergyType>, damage: u32, effect: Option<&str>) -> Attack {
    Attack {
        energy_required: cost,
        title: title.to_string(),
        fixed_damage: damage,
        effect: effect.map(|text| text.to_string()),
    }
}

#[allow(dead_code)]
fn creature(
    id: &str,
    name: &str,
    hp: u32,
    energy_type: EnergyType,
    weakness: Option<EnergyType>,
    attacks: Vec<Attack>,
) -> Card {
    Card::Pokemon(PokemonCard {
        id: id.to_string(),
        name: name.to_string(),
        stage: 0,
        evolves_from: None,
        basic_form: None,
        hp,
        energy_type,
        weakness,
        ability: None,
        attacks,
        retreat_cost: vec![EnergyType::Colorless],
    })
}

#[allow(dead_code)]
fn bulbasaur() -> Card {
    creature(
        "A1 001",
        "Bulbasaur",
        70,
        EnergyType::Grass,
        Some(EnergyType::Fire),
        vec![attack("Vine Whip", vec![EnergyType::Grass, EnergyType::Colorless], 40, None)],
    )
}

#[allow(dead_code)]
fn squirtle() -> Card {
    creature(
        "A1 053",
        "Squirtle",
        60,
        EnergyType::Water,
        Some(EnergyType::Lightning),
        vec![attack("Water Gun", vec![EnergyType::Water], 20, None)],
    )
}

#[allow(dead_code)]
fn exeggcute() -> Card {
    creature(
        "A1 021",
        "Exeggcute",
        50,
        EnergyType::Grass,
        Some(EnergyType::Fire),
        vec![attack("Seed Bomb", vec![EnergyType::Grass], 20, None)],
    )
}

#[allow(dead_code)]
fn koffing() -> Card {
    creature(
        "A1 176",
        "Koffing",
        70,
        EnergyType::Darkness,
        Some(EnergyType::Fighting),
        vec![attack("Suffocating Gas", vec![EnergyType::Darkness], 20, None)],
    )
}

#[allow(dead_code)]
fn trainer(id: &str, name: &str, kind: TrainerType) -> TrainerCard {
    TrainerCard { id: id.to_string(), name: name.to_string(), trainer_card_type: kind }
}

#[allow(dead_code)]
fn deck_of(card: &Card, copies: usize, energy: EnergyType) -> Deck {
    Deck { cards: vec![card.clone(); copies], energy_types: vec![energy] }
}

#[allow(dead_code)]
fn in_turn(turn: u8) -> State {
    let mut state = State::default();
    state.turn_count = turn;
    state
}

fn act(state: &mut State, actor: usize, action: SimpleAction) {
    apply_action_with_pick(state, &Action { actor, action, is_stack: false }, 0);
}

fn answer(state: &mut State, actor: usize, action: SimpleAction) {
    apply_action_with_pick(state, &Action { actor, action, is_stack: true }, 0);
}

fn moves(state: &State) -> (usize, Vec<SimpleAction>, bool) {
    let (actor, actions) = generate_possible_actions(state);
    let stacked = actions.iter().all(|a| a.is_stack);
    assert!(stacked || actions.iter().all(|a| !a.is_stack));
    assert!(actions.iter().all(|a| a.actor == actor));
    (actor, actions.into_iter().map(|a| a.action).collect(), stacked)
}

fn with_ability(id: &str, name: &str, hp: u32, energy_type: EnergyType) -> Card {
    let mut card = creature(id, name, hp, energy_type, None, vec![]);
    if let Card::Pokemon(creature) = &mut card {
        creature.ability = Some(Ability { title: "Ability".to_string(), effect: String::new() });
    }
    card
}

fn board() -> State {
    let mut state = in_turn(3);
    state.in_play_pokemon[0][0] = Some(to_playable_card(&bulbasaur(), false));
    state.in_play_pokemon[1][0] = Some(to_playable_card(&squirtle(), false));
    state
}

#[test]
fn placing_a_basic_creature() {
    let mut state = State::default();
    state.hands[0] = vec![
        Card::Trainer(trainer("P-A 001", "Potion", TrainerType::Item)),
        squirtle(),
        bulbasaur(),
        squirtle(),
    ];
    act(&mut state, 0, SimpleAction::Place(squirtle(), 0));
    assert_eq!(state.hands[0].len(), 3);
    assert_eq!(state.hands[0][1], bulbasaur());
    assert_eq!(state.hands[0][2], squirtle());
    let active = state.get_active(0);
    assert_eq!(active.get_name(), "Squirtle");
    assert_eq!(active.remaining_hp, 60);
    assert!(active.played_this_turn);

    // An occupied slot, a slot off the board, a card that is not in the
    // hand and a card that is no creature change nothing.
    let before = state.clone();
    act(&mut state, 0, SimpleAction::Place(bulbasaur(), 0));
    act(&mut state, 0, SimpleAction::Place(bulbasaur(), 4));
    act(&mut state, 0, SimpleAction::Place(koffing(), 1));
    act(
        &mut state,
        0,
        SimpleAction::Place(Card::Trainer(trainer("P-A 001", "Potion", TrainerType::Item)), 1),
    );
    act(&mut state, 1, SimpleAction::Place(bulbasaur(), 0));
    assert_eq!(state, before);

    let mut evolved = bulbasaur();
    if let Card::Pokemon(creature) = &mut evolved {
        creature.id = "A1 002".to_string();
        creature.stage = 1;
    }
    state.hands[0].push(evolved.clone());
    let before = state.clone();
    act(&mut state, 0, SimpleAction::Place(evolved, 1));
    assert_eq!(state, before);

    act(&mut state, 0, SimpleAction::Place(bulbasaur(), 2));
    assert_eq!(state.in_play_pokemon[0][2].as_ref().unwrap().get_name(), "Bulbasaur");
    assert_eq!(state.hands[0].len(), 3);
}

#[test]
fn attaching_the_energy_of_the_turn_uses_it_up() {
    let mut state = board();
    state.current_energy = Some(EnergyType::Grass);
    act(
        &mut state,
        0,
        SimpleAction::Attach {
            in_play_idx: 0,
            energy: EnergyType::Grass,
            count: 1,
            is_turn_energy: true,
        },
    );
    assert_eq!(state.get_active(0).attached_energy, vec![EnergyType::Grass]);
    assert_eq!(state.current_energy, None);

    state.current_energy = Some(EnergyType::Fire);
    act(
        &mut state,
        0,
        SimpleAction::Attach {
            in_play_idx: 0,
            energy: EnergyType::Metal,
            count: 2,
            is_turn_energy: false,
        },
    );
    assert_eq!(
        state.get_active(0).attached_energy,
        vec![EnergyType::Grass, EnergyType::Metal, EnergyType::Metal],
    );
    assert_eq!(state.current_energy, Some(EnergyType::Fire));

    // An empty slot takes nothing and keeps the energy of the turn.
    let before = state.clone();
    act(
        &mut state,
        0,
        SimpleAction::Attach {
            in_play_idx: 2,
            energy: EnergyType::Fire,
            count: 1,
            is_turn_energy: true,
        },
    );
    act(
        &mut state,
        0,
        SimpleAction::Attach {
            in_play_idx: 9,
            energy: EnergyType::Fire,
            count: 1,
            is_turn_energy: true,
        },
    );
    assert_eq!(state, before);
}

#[test]
fn a_cape_adds_health() {
    let mut state = board();
    state.in_play_pokemon[0][0].as_mut().unwrap().apply_damage(20);
    act(
        &mut state,
        0,
        SimpleAction::AttachTool { in_play_idx: 0, tool_id: ToolId::A2147GiantCape },
    );
    let active = state.get_active(0);
    assert_eq!(active.attached_tool, Some(ToolId::A2147GiantCape));
    assert_eq!((active.remaining_hp, active.total_hp), (70, 90));

    // No second tool.
    let before = state.clone();
    act(&mut state, 0, SimpleAction::AttachTool { in_play_idx: 0, tool_id: ToolId::A3147LeafCape });
    assert_eq!(state, before);

    // The leaf cape is for grass creatures.
    act(&mut state, 1, SimpleAction::AttachTool { in_play_idx: 0, tool_id: ToolId::A3147LeafCape });
    assert_eq!(state, before);
    state.in_play_pokemon[1][1] = Some(to_playable_card(&bulbasaur(), false));
    act(&mut state, 1, SimpleAction::AttachTool { in_play_idx: 1, tool_id: ToolId::A3147LeafCape });
    let bench = state.in_play_pokemon[1][1].as_ref().unwrap();
    assert_eq!((bench.remaining_hp, bench.total_hp), (100, 100));

    // The helmet adds none.
    act(
        &mut state,
        1,
        SimpleAction::AttachTool { in_play_idx: 0, tool_id: ToolId::A2148RockyHelmet },
    );
    let active = state.get_active(1);
    assert_eq!(active.attached_tool, Some(ToolId::A2148RockyHelmet));
    assert_eq!((active.remaining_hp, active.total_hp), (60, 60));
}

#[test]
fn healing_a_slot() {
    let mut state = board();
    let active = state.in_play_pokemon[0][0].as_mut().unwrap();
    active.apply_damage(50);
    active.poisoned = true;
    act(&mut state, 0, SimpleAction::Heal { in_play_idx: 0, amount: 20, cure_status: false });
    assert_eq!(state.get_remaining_hp(0, 0), 40);
    assert!(state.get_active(0).poisoned);
    act(&mut state, 0, SimpleAction::Heal { in_play_idx: 0, amount: 60, cure_status: true });
    assert_eq!(state.get_remaining_hp(0, 0), 70);
    assert!(!state.get_active(0).poisoned);
    let before = state.clone();
    act(&mut state, 0, SimpleAction::Heal { in_play_idx: 1, amount: 60, cure_status: true });
    assert_eq!(state, before);
}

#[test]
fn promotion_and_switch() {
    let mut state = board();
    state.in_play_pokemon[0][2] = Some(to_playable_card(&koffing(), false));
    {
        let active = state.in_play_pokemon[0][0].as_mut().unwrap();
        active.asleep = true;
        active.add_effect(CardEffect::CannotAttack, 1);
        active.attach_energy(&EnergyType::Grass, 1);
        active.apply_damage(10);
    }
    act(&mut state, 0, SimpleAction::Activate { in_play_idx: 2 });
    assert_eq!(state.get_active(0).get_name(), "Koffing");
    let benched = state.in_play_pokemon[0][2].as_ref().unwrap();
    assert_eq!(benched.get_name(), "Bulbasaur");
    assert!(!benched.asleep);
    assert!(benched.effects.is_empty());
    assert_eq!(benched.attached_energy, vec![EnergyType::Grass]);
    assert_eq!(benched.remaining_hp, 60);

    // Into an empty active slot.
    state.in_play_pokemon[0][0] = None;
    act(&mut state, 0, SimpleAction::Activate { in_play_idx: 2 });
    assert_eq!(state.get_active(0).get_name(), "Bulbasaur");
    assert!(state.in_play_pokemon[0][2].is_none());

    // Not from the active slot, an empty slot or a slot off the board.
    let before = state.clone();
    act(&mut state, 0, SimpleAction::Activate { in_play_idx: 0 });
    act(&mut state, 0, SimpleAction::Activate { in_play_idx: 1 });
    act(&mut state, 0, SimpleAction::Activate { in_play_idx: 4 });
    assert_eq!(state, before);
}

#[test]
fn retreat_pays_with_the_energy_attached_last() {
    let mut state = board();
    state.in_play_pokemon[0][1] = Some(to_playable_card(&koffing(), false));
    // Without energy the creature cannot pay.
    let before = state.clone();
    act(&mut state, 0, SimpleAction::Retreat(1));
    assert_eq!(state, before);
    let (_, list, _) = moves(&state);
    assert!(!list.contains(&SimpleAction::Retreat(1)));

    state.in_play_pokemon[0][0].as_mut().unwrap().attached_energy =
        vec![EnergyType::Grass, EnergyType::Fire];
    state.in_play_pokemon[0][0].as_mut().unwrap().poisoned = true;
    let (_, list, _) = moves(&state);
    assert!(list.contains(&SimpleAction::Retreat(1)));
    assert!(!list.contains(&SimpleAction::Retreat(2)));
    act(&mut state, 0, SimpleAction::Retreat(1));
    assert_eq!(state.get_active(0).get_name(), "Koffing");
    let benched = state.in_play_pokemon[0][1].as_ref().unwrap();
    assert_eq!(benched.attached_energy, vec![EnergyType::Grass]);
    assert!(!benched.poisoned);
    assert_eq!(state.discard_energies[0], vec![EnergyType::Fire]);
    assert!(state.has_retreated);

    // Once a turn.
    state.in_play_pokemon[0][0].as_mut().unwrap().attached_energy = vec![EnergyType::Darkness];
    let before = state.clone();
    act(&mut state, 0, SimpleAction::Retreat(1));
    assert_eq!(state, before);
    let (_, list, _) = moves(&state);
    assert!(!list.contains(&SimpleAction::Retreat(1)));
}

#[test]
fn an_effect_can_hold_a_creature_in_place_and_the_boat_makes_retreat_cheaper() {
    let mut state = board();
    state.in_play_pokemon[0][1] = Some(to_playable_card(&koffing(), false));
    {
        let active = state.in_play_pokemon[0][0].as_mut().unwrap();
        active.attached_energy = vec![EnergyType::Grass];
        active.add_effect(CardEffect::NoRetreat, 1);
    }
    let before = state.clone();
    act(&mut state, 0, SimpleAction::Retreat(1));
    assert_eq!(state, before);

    state.in_play_pokemon[1][2] = Some(to_playable_card(&squirtle(), false));
    state.in_play_pokemon[1][0].as_mut().unwrap().attached_tool =
        Some(ToolId::A4a067InflatableBoat);
    act(&mut state, 1, SimpleAction::Retreat(2));
    assert!(state.has_retreated);
    assert_eq!(
        state.in_play_pokemon[1][2].as_ref().unwrap().attached_tool,
        Some(ToolId::A4a067InflatableBoat),
    );
    assert!(state.discard_energies[1].is_empty());
}

#[test]
fn the_healing_ability_heals_every_card_of_its_side_once_a_turn() {
    let mut state = board();
    state.in_play_pokemon[0][0].as_mut().unwrap().apply_damage(30);
    let mut butterfree = to_playable_card(
        &with_ability("A1 007", "Butterfree", 120, EnergyType::Grass),
        false,
    );
    butterfree.apply_damage(10);
    state.in_play_pokemon[0][2] = Some(butterfree);
    state.in_play_pokemon[1][0].as_mut().unwrap().apply_damage(30);

    let (_, list, _) = moves(&state);
    assert!(list.contains(&SimpleAction::UseAbility(2)));
    assert!(!list.contains(&SimpleAction::UseAbility(0)));
    act(&mut state, 0, SimpleAction::UseAbility(2));
    assert_eq!(state.get_remaining_hp(0, 0), 60);
    assert_eq!(state.get_remaining_hp(0, 2), 120);
    assert_eq!(state.get_remaining_hp(1, 0), 30);
    assert!(state.in_play_pokemon[0][2].as_ref().unwrap().ability_used);

    let before = state.clone();
    act(&mut state, 0, SimpleAction::UseAbility(2));
    act(&mut state, 0, SimpleAction::UseAbility(0));
    act(&mut state, 0, SimpleAction::UseAbility(1));
    assert_eq!(state, before);
    let (_, list, _) = moves(&state);
    assert!(!list.contains(&SimpleAction::UseAbility(2)));
}

#[test]
fn the_charging_and_the_poisoning_ability() {
    let mut state = board();
    state.in_play_pokemon[0][1] = Some(
        to_playable_card(&with_ability("A1 098", "Magneton", 80, EnergyType::Lightning), false),
    );
    act(&mut state, 0, SimpleAction::UseAbility(1));
    let magneton = state.in_play_pokemon[0][1].as_ref().unwrap();
    assert_eq!(magneton.attached_energy, vec![EnergyType::Lightning]);
    assert!(magneton.ability_used);

    // The poisoning ability works from the active slot only.
    let weezing = with_ability("A1 177", "Weezing", 110, EnergyType::Darkness);
    state.in_play_pokemon[0][2] = Some(to_playable_card(&weezing, false));
    let before = state.clone();
    act(&mut state, 0, SimpleAction::UseAbility(2));
    assert_eq!(state, before);
    state.in_play_pokemon[0][0] = Some(to_playable_card(&weezing, false));
    act(&mut state, 0, SimpleAction::UseAbility(0));
    assert!(state.get_active(1).poisoned);
    assert!(state.get_active(0).ability_used);

    // The ability that is always on is never used by choice.
    let totem = with_ability("A1a 006", "Serperior", 110, EnergyType::Grass);
    state.in_play_pokemon[0][3] = Some(to_playable_card(&totem, false));
    let before = state.clone();
    act(&mut state, 0, SimpleAction::UseAbility(3));
    assert_eq!(state, before);
}

#[test]
fn playing_a_potion_asks_which_creature_to_heal() {
    let potion = trainer("P-A 001", "Potion", TrainerType::Item);
    let mut state = board();
    state.in_play_pokemon[0][0].as_mut().unwrap().apply_damage(30);
    state.in_play_pokemon[0][2] = Some(to_playable_card(&koffing(), false));
    let mut hurt = to_playable_card(&squirtle(), false);
    hurt.apply_damage(10);
    state.in_play_pokemon[0][3] = Some(hurt);
    state.hands[0] = vec![bulbasaur(), Card::Trainer(potion.clone())];

    let (actor, list, stacked) = moves(&state);
    assert_eq!(actor, 0);
    assert!(!stacked);
    assert!(list.contains(&SimpleAction::Play { trainer_card: potion.clone() }));
    act(&mut state, 0, SimpleAction::Play { trainer_card: potion.clone() });
    assert_eq!(state.hands[0], vec![bulbasaur()]);
    assert_eq!(state.discard_piles[0], vec![Card::Trainer(potion.clone())]);
    assert!(!state.has_played_support);

    let (actor, list, stacked) = moves(&state);
    assert_eq!(actor, 0);
    assert!(stacked);
    assert_eq!(
        list,
        vec![
            SimpleAction::Heal { in_play_idx: 0, amount: 20, cure_status: false },
            SimpleAction::Heal { in_play_idx: 3, amount: 20, cure_status: false }
        ]
    );
    answer(&mut state, 0, list[0].clone());
    assert_eq!(state.get_remaining_hp(0, 0), 60);
    assert!(state.move_generation_stack.is_empty());

    // A card that is not in the hand is not played.
    let before = state.clone();
    act(&mut state, 0, SimpleAction::Play { trainer_card: potion });
    assert_eq!(state, before);
}

#[test]
fn playing_supporters() {
    let research = trainer("P-A 007", "Professor's Research", TrainerType::Supporter);
    let sabrina = trainer("A1 225", "Sabrina", TrainerType::Supporter);
    let irida = trainer("A2a 072", "Irida", TrainerType::Supporter);
    let mut state = board();
    state.hands[0] = vec![
        Card::Trainer(research.clone()),
        Card::Trainer(sabrina.clone()),
        Card::Trainer(irida.clone()),
    ];
    state.decks[0].cards = vec![koffing(), squirtle(), bulbasaur()];

    act(&mut state, 0, SimpleAction::Play { trainer_card: research.clone() });
    assert!(state.has_played_support);
    assert_eq!(state.hands[0].len(), 4);
    assert_eq!(state.hands[0][2], bulbasaur());
    assert_eq!(state.hands[0][3], squirtle());
    assert_eq!(state.decks[0].cards, vec![koffing()]);
    assert_eq!(state.discard_piles[0], vec![Card::Trainer(research)]);
    // No second supporter is offered this turn.
    let (_, list, _) = moves(&state);
    assert!(!list.iter().any(|m| matches!(m, SimpleAction::Play { .. })));

    // The opponent must switch.
    state.has_played_support = false;
    state.in_play_pokemon[1][1] = Some(to_playable_card(&koffing(), false));
    state.in_play_pokemon[1][3] = Some(to_playable_card(&bulbasaur(), false));
    act(&mut state, 0, SimpleAction::Play { trainer_card: sabrina });
    let (actor, list, stacked) = moves(&state);
    assert_eq!(actor, 1);
    assert!(stacked);
    assert_eq!(
        list,
        vec![SimpleAction::Activate { in_play_idx: 1 }, SimpleAction::Activate { in_play_idx: 3 }],
    );
    answer(&mut state, 1, list[1].clone());
    assert_eq!(state.get_active(1).get_name(), "Bulbasaur");
    assert_eq!(state.in_play_pokemon[1][3].as_ref().unwrap().get_name(), "Squirtle");

    // Every damaged creature with water energy is healed.
    state.has_played_support = false;
    {
        let active = state.in_play_pokemon[0][0].as_mut().unwrap();
        active.apply_damage(50);
        active.attach_energy(&EnergyType::Water, 1);
    }
    let mut dry = to_playable_card(&koffing(), false);
    dry.apply_damage(50);
    state.in_play_pokemon[0][1] = Some(dry);
    act(&mut state, 0, SimpleAction::Play { trainer_card: irida });
    assert_eq!(state.get_remaining_hp(0, 0), 60);
    assert_eq!(state.get_remaining_hp(0, 1), 20);
    assert!(state.move_generation_stack.is_empty());
}

#[test]
fn playing_a_tool_asks_where_to_attach_it() {
    let helmet = trainer("A2 148", "Rocky Helmet", TrainerType::Tool);
    let mut state = board();
    state.in_play_pokemon[0][2] = Some(to_playable_card(&koffing(), false));
    state.hands[0] = vec![Card::Trainer(helmet.clone())];
    act(&mut state, 0, SimpleAction::Play { trainer_card: helmet });
    let (actor, list, stacked) = moves(&state);
    assert_eq!((actor, stacked), (0, true));
    assert_eq!(
        list,
        vec![
            SimpleAction::AttachTool { in_play_idx: 0, tool_id: ToolId::A2148RockyHelmet },
            SimpleAction::AttachTool { in_play_idx: 2, tool_id: ToolId::A2148RockyHelmet }
        ]
    );
    answer(&mut state, 0, list[1].clone());
    assert_eq!(
        state.in_play_pokemon[0][2].as_ref().unwrap().attached_tool,
        Some(ToolId::A2148RockyHelmet),
    );
    assert!(state.move_generation_stack.is_empty());
}

#[test]
fn a_trainer_whose_effect_is_not_carried_out_is_not_offered() {
    let ball = trainer("P-A 005", "Poke Ball", TrainerType::Item);
    let mut state = board();
    state.hands[0] = vec![Card::Trainer(ball.clone())];
    let (_, list, _) = moves(&state);
    assert_eq!(list, vec![SimpleAction::EndTurn]);
}

#[test]
fn poison_takes_ten_at_the_end_of_every_turn() {
    let mut state = in_turn(1);
    state.in_play_pokemon[0][0] = Some(to_playable_card(&bulbasaur(), false));
    let mut poisoned = PlayedCard::new(squirtle(), 60, 60, vec![], false, vec![]);
    poisoned.poisoned = true;
    state.in_play_pokemon[1][0] = Some(poisoned);

    act(&mut state, 0, SimpleAction::EndTurn);
    assert_eq!(state.get_remaining_hp(1, 0), 50);
    act(&mut state, 1, SimpleAction::EndTurn);
    assert_eq!(state.get_remaining_hp(1, 0), 40);
    act(&mut state, 0, SimpleAction::EndTurn);
    assert_eq!(state.get_remaining_hp(1, 0), 30);
    assert!(state.get_active(1).poisoned);
    assert_eq!(state.get_remaining_hp(0, 0), 70);
    assert_eq!(state.turn_count, 4);
}

#[test]
fn the_end_of_a_turn() {
    let mut state = board();
    state.turn_count = 1;
    state.has_played_support = true;
    state.has_retreated = true;
    state.current_energy = Some(EnergyType::Fire);
    state.decks[1] = Deck {
        cards: vec![koffing(), squirtle()],
        energy_types: vec![EnergyType::Water, EnergyType::Metal],
    };
    {
        let active = state.in_play_pokemon[0][0].as_mut().unwrap();
        active.played_this_turn = true;
        active.ability_used = true;
        active.add_effect(CardEffect::CannotAttack, 0);
        active.add_effect(CardEffect::NoRetreat, 2);
    }
    apply_action_with_pick(
        &mut state,
        &Action { actor: 0, action: SimpleAction::EndTurn, is_stack: false },
        1,
    );
    assert_eq!(state.turn_count, 2);
    assert_eq!(state.current_player, 1);
    assert!(!state.has_played_support);
    assert!(!state.has_retreated);
    assert_eq!(state.current_energy, Some(EnergyType::Metal));
    assert_eq!(state.hands[1], vec![squirtle()]);
    assert_eq!(state.decks[1].cards, vec![koffing()]);
    let active = state.get_active(0);
    assert!(!active.played_this_turn);
    assert!(!active.ability_used);
    assert_eq!(active.effects, vec![(CardEffect::NoRetreat, 1)]);
    assert_eq!(state.winner, None);

    // A pick off the list stands for the first type; an empty list gives none.
    apply_action_with_pick(
        &mut state,
        &Action { actor: 1, action: SimpleAction::EndTurn, is_stack: false },
        0,
    );
    assert_eq!(state.current_energy, None);
    assert_eq!(state.current_player, 0);
    assert!(state.hands[0].is_empty());
    apply_action_with_pick(
        &mut state,
        &Action { actor: 0, action: SimpleAction::EndTurn, is_stack: false },
        7,
    );
    assert_eq!(state.current_energy, Some(EnergyType::Water));
    assert_eq!(state.turn_count, 4);
}

#[test]
fn no_energy_in_the_first_turn() {
    let mut state = board();
    state.turn_count = 0;
    state.decks[1].energy_types = vec![EnergyType::Water];
    state.decks[0].energy_types = vec![EnergyType::Grass];
    act(&mut state, 0, SimpleAction::EndTurn);
    assert_eq!(state.turn_count, 1);
    assert_eq!(state.current_player, 1);
    assert_eq!(state.current_energy, None);
    act(&mut state, 1, SimpleAction::EndTurn);
    assert_eq!(state.turn_count, 2);
    assert_eq!(state.current_energy, Some(EnergyType::Grass));
}

#[test]
fn setup_goes_from_one_player_to_the_other_and_then_to_the_first_turn() {
    let mut state = State::deal(
        &deck_of(&bulbasaur(), 6, EnergyType::Grass),
        &deck_of(&squirtle(), 6, EnergyType::Water),
        1,
    );
    assert_eq!(state.current_player, 1);
    assert_eq!(state.turn_count, 0);
    assert_eq!(state.hands[0].len(), 5);
    assert_eq!(state.hands[1].len(), 5);
    assert_eq!(state.decks[0].cards.len(), 1);

    // The player who moves first must place an active creature.
    let (actor, list, stacked) = moves(&state);
    assert_eq!((actor, stacked), (1, false));
    assert_eq!(list, vec![SimpleAction::Place(squirtle(), 0); 5]);
    act(&mut state, 1, list[0].clone());
    let (actor, list, _) = moves(&state);
    assert_eq!(actor, 1);
    assert_eq!(list.len(), 5);
    assert_eq!(list[0], SimpleAction::Place(squirtle(), 1));
    assert_eq!(list[4], SimpleAction::EndTurn);
    act(&mut state, 1, SimpleAction::EndTurn);
    assert_eq!((state.turn_count, state.current_player), (0, 0));

    let (actor, list, _) = moves(&state);
    assert_eq!(actor, 0);
    assert_eq!(list, vec![SimpleAction::Place(bulbasaur(), 0); 5]);
    act(&mut state, 0, list[0].clone());
    act(&mut state, 0, SimpleAction::Place(bulbasaur(), 1));
    act(&mut state, 0, SimpleAction::EndTurn);
    assert_eq!((state.turn_count, state.current_player), (1, 1));
    assert_eq!(state.hands[1].len(), 5);
    assert_eq!(state.current_energy, None);
    assert_eq!(state.winner, None);
    assert!(!state.get_active(0).played_this_turn);
}

#[test]
fn a_player_who_cannot_place_an_active_creature_can_only_pass_and_loses() {
    let potion = Card::Trainer(trainer("P-A 001", "Potion", TrainerType::Item));
    let mut state = State::deal(
        &Deck { cards: vec![potion.clone(), potion.clone()], energy_types: vec![] },
        &deck_of(&squirtle(), 6, EnergyType::Water),
        0,
    );
    assert_eq!(state.hands[0].len(), 2);
    let (actor, list, _) = moves(&state);
    assert_eq!(actor, 0);
    assert_eq!(list, vec![SimpleAction::EndTurn]);
    act(&mut state, 0, SimpleAction::EndTurn);
    assert_eq!(state.current_player, 1);
    act(&mut state, 1, SimpleAction::Place(squirtle(), 0));
    act(&mut state, 1, SimpleAction::EndTurn);
    assert_eq!((state.turn_count, state.current_player), (0, 0));
    act(&mut state, 0, SimpleAction::EndTurn);
    assert_eq!(state.turn_count, 1);
    assert_eq!(state.winner, Some(GameOutcome::Win(1)));
    assert!(state.is_game_over());
}

#[test]
fn a_knockout_by_poison_asks_for_a_promotion() {
    let mut state = board();
    {
        let active = state.in_play_pokemon[0][0].as_mut().unwrap();
        active.remaining_hp = 10;
        active.poisoned = true;
        active.attached_energy = vec![EnergyType::Grass];
        active.cards_behind = vec![koffing()];
    }
    state.in_play_pokemon[0][1] = Some(to_playable_card(&koffing(), false));
    state.in_play_pokemon[0][3] = Some(to_playable_card(&squirtle(), false));
    act(&mut state, 0, SimpleAction::EndTurn);
    assert!(state.in_play_pokemon[0][0].is_none());
    assert_eq!(state.points, [0, 1]);
    assert_eq!(state.discard_piles[0], vec![koffing(), bulbasaur()]);
    assert_eq!(state.discard_energies[0], vec![EnergyType::Grass]);
    assert_eq!(state.winner, None);
    assert_eq!((state.turn_count, state.current_player), (4, 1));

    // The promotion comes before the next player's own moves.
    let (actor, list, stacked) = moves(&state);
    assert_eq!((actor, stacked), (0, true));
    assert_eq!(
        list,
        vec![SimpleAction::Activate { in_play_idx: 1 }, SimpleAction::Activate { in_play_idx: 3 }],
    );
    answer(&mut state, 0, list[1].clone());
    assert_eq!(state.get_active(0).get_name(), "Squirtle");
    let (actor, list, stacked) = moves(&state);
    assert_eq!((actor, stacked), (1, false));
    assert_eq!(list.last(), Some(&SimpleAction::EndTurn));
}

#[test]
fn three_points_win_and_a_side_without_creatures_loses() {
    let strike = attack("Strike", vec![], 200, None);
    let striker = creature("X 010", "Striker", 100, EnergyType::Fighting, None, vec![strike]);
    let ex = creature("X 011", "Target ex", 100, EnergyType::Water, None, vec![]);

    // The last creature of a side.
    let mut state = board();
    state.in_play_pokemon[0][0] = Some(to_playable_card(&striker, false));
    act(&mut state, 0, SimpleAction::Attack(0));
    assert_eq!(state.points, [1, 0]);
    assert_eq!(state.winner, Some(GameOutcome::Win(0)));

    // Three points, with creatures left on the other side.
    let mut state = board();
    state.points = [1, 0];
    state.in_play_pokemon[0][0] = Some(to_playable_card(&striker, false));
    state.in_play_pokemon[1][0] = Some(to_playable_card(&ex, false));
    state.in_play_pokemon[1][1] = Some(to_playable_card(&squirtle(), false));
    act(&mut state, 0, SimpleAction::Attack(0));
    assert_eq!(state.points, [3, 0]);
    assert_eq!(state.winner, Some(GameOutcome::Win(0)));
    // Nobody is asked to promote once the game is over.
    assert_eq!(state.move_generation_stack, vec![(0, vec![SimpleAction::EndTurn])]);

    // Both sides lose their last creature: a tie.
    let mut state = board();
    state.in_play_pokemon[0][0] = Some(
        PlayedCard::new(striker.clone(), 20, 100, vec![], false, vec![]),
    );
    state.in_play_pokemon[1][0].as_mut().unwrap().attached_tool = Some(ToolId::A2148RockyHelmet);
    act(&mut state, 0, SimpleAction::Attack(0));
    assert_eq!(state.points, [1, 1]);
    assert_eq!(state.winner, Some(GameOutcome::Tie));

    // A game that has ended stays as it ended.
    act(&mut state, 0, SimpleAction::EndTurn);
    assert_eq!(state.winner, Some(GameOutcome::Tie));
}

#[test]
fn the_turn_limit_ends_the_game_in_a_tie() {
    let mut state = board();
    state.turn_count = 98;
    act(&mut state, 0, SimpleAction::EndTurn);
    assert_eq!(state.turn_count, 99);
    assert_eq!(state.winner, None);
    act(&mut state, 1, SimpleAction::EndTurn);
    assert_eq!(state.turn_count, 100);
    assert_eq!(state.winner, Some(GameOutcome::Tie));
    state.turn_count = 255;
    act(&mut state, 0, SimpleAction::EndTurn);
    assert_eq!(state.turn_count, 255);
}

#[test]
fn weakness_adds_twenty() {
    let ember = attack("Ember", vec![], 30, None);
    let growl = attack("Growl", vec![], 0, None);
    let charmander = creature(
        "A1 033",
        "Charmander",
        60,
        EnergyType::Fire,
        Some(EnergyType::Water),
        vec![ember, growl],
    );
    let mut state = board();
    state.in_play_pokemon[1][0] = Some(to_playable_card(&charmander, false));
    state.current_player = 1;
    act(&mut state, 1, SimpleAction::Attack(0));
    assert_eq!(state.get_remaining_hp(0, 0), 20);
    // An attack without damage stays without damage.
    state.move_generation_stack.clear();
    act(&mut state, 1, SimpleAction::Attack(1));
    assert_eq!(state.get_remaining_hp(0, 0), 20);
    // No weakness, no extra damage.
    state.in_play_pokemon[0][0] = Some(to_playable_card(&squirtle(), false));
    state.move_generation_stack.clear();
    act(&mut state, 1, SimpleAction::Attack(0));
    assert_eq!(state.get_remaining_hp(0, 0), 30);
    // An attack that the creature does not have changes nothing.
    let before = state.clone();
    act(&mut state, 1, SimpleAction::Attack(2));
    assert_eq!(state, before);
}

#[test]
fn the_effects_of_attacks() {
    let venusaur = creature("A1 003", "Venusaur", 160, EnergyType::Grass, None, vec![
        attack("Razor Leaf", vec![], 60, None),
        attack("Mega Drain", vec![], 80, Some("Heal 30 damage from this Pokemon.")),
    ]);
    let venomoth = creature("A1 017", "Venomoth", 80, EnergyType::Grass, None, vec![
        attack(
            "Poison Powder",
            vec![],
            30,
            Some("Your opponent's Active Pokemon is now Poisoned."),
        ),
    ]);
    let vileplume = creature("A1 013", "Vileplume", 140, EnergyType::Grass, None, vec![
        attack("Soothing Scent", vec![], 80, Some("Your opponent's Active Pokemon is now Asleep.")),
    ]);
    let arbok = creature("A1 165", "Arbok", 100, EnergyType::Darkness, None, vec![
        attack("Corner", vec![], 60, Some("The Defending Pokemon can't retreat.")),
    ]);
    let charizard = creature("A1 036", "Charizard ex", 180, EnergyType::Fire, None, vec![
        attack("Slash", vec![], 60, None),
        attack("Crimson Storm", vec![], 200, Some("Discard 2 Fire Energy from this Pokemon.")),
    ]);
    let wall = creature("X 020", "Wall", 250, EnergyType::Colorless, None, vec![]);

    let mut state = board();
    state.in_play_pokemon[1][0] = Some(to_playable_card(&wall, false));
    state.in_play_pokemon[0][0] = Some(PlayedCard::new(venusaur, 100, 160, vec![], false, vec![]));
    act(&mut state, 0, SimpleAction::Attack(1));
    assert_eq!(state.get_remaining_hp(1, 0), 170);
    assert_eq!(state.get_remaining_hp(0, 0), 130);
    assert_eq!(state.move_generation_stack, vec![(0, vec![SimpleAction::EndTurn])]);

    state.in_play_pokemon[0][0] = Some(to_playable_card(&venomoth, false));
    act(&mut state, 0, SimpleAction::Attack(0));
    assert_eq!(state.get_remaining_hp(1, 0), 140);
    assert!(state.get_active(1).poisoned);
    assert!(!state.get_active(1).asleep);

    state.in_play_pokemon[0][0] = Some(to_playable_card(&vileplume, false));
    act(&mut state, 0, SimpleAction::Attack(0));
    assert_eq!(state.get_remaining_hp(1, 0), 60);
    assert!(state.get_active(1).asleep);

    state.in_play_pokemon[1][0] = Some(to_playable_card(&wall, false));
    state.in_play_pokemon[0][0] = Some(to_playable_card(&arbok, false));
    act(&mut state, 0, SimpleAction::Attack(0));
    assert_eq!(state.get_active(1).effects, vec![(CardEffect::NoRetreat, 1)]);

    let fire = vec![EnergyType::Fire, EnergyType::Water, EnergyType::Fire, EnergyType::Fire];
    state.in_play_pokemon[0][0] = Some(PlayedCard::new(charizard, 180, 180, fire, false, vec![]));
    act(&mut state, 0, SimpleAction::Attack(1));
    assert_eq!(state.get_active(0).attached_energy, vec![EnergyType::Fire, EnergyType::Water]);
    assert!(state.in_play_pokemon[1][0].is_none());
    assert_eq!(state.points, [1, 0]);
}

#[test]
fn the_defender_is_held_in_place_for_its_owners_next_turn() {
    let arbok = creature("A1 165", "Arbok", 100, EnergyType::Darkness, None, vec![
        attack("Corner", vec![], 10, Some("The Defending Pokemon can't retreat.")),
    ]);
    let mut state = board();
    state.in_play_pokemon[0][0] = Some(to_playable_card(&arbok, false));
    state.in_play_pokemon[1][0].as_mut().unwrap().attached_energy = vec![EnergyType::Water];
    state.in_play_pokemon[1][1] = Some(to_playable_card(&koffing(), false));
    act(&mut state, 0, SimpleAction::Attack(0));
    let (_, list, stacked) = moves(&state);
    assert!(stacked);
    assert_eq!(list, vec![SimpleAction::EndTurn]);
    answer(&mut state, 0, SimpleAction::EndTurn);

    // The opponent's turn: no retreat.
    assert_eq!(state.current_player, 1);
    let (_, list, _) = moves(&state);
    assert!(!list.iter().any(|m| matches!(m, SimpleAction::Retreat(_))));
    act(&mut state, 1, SimpleAction::EndTurn);
    act(&mut state, 0, SimpleAction::EndTurn);
    // A turn later the effect has run out.
    let (_, list, _) = moves(&state);
    assert!(list.contains(&SimpleAction::Retreat(1)));
}

#[test]
fn a_pending_decision_comes_before_everything_else() {
    let mut state = board();
    state.current_energy = Some(EnergyType::Grass);
    state.hands[0] = vec![squirtle()];
    state.in_play_pokemon[0][0].as_mut().unwrap().attached_energy = vec![
        EnergyType::Grass,
        EnergyType::Grass,
    ];
    let (actor, fresh, stacked) = moves(&state);
    assert_eq!((actor, stacked), (0, false));
    assert_eq!(
        fresh,
        vec![
            SimpleAction::Attach {
                in_play_idx: 0,
                energy: EnergyType::Grass,
                count: 1,
                is_turn_energy: true,
            },
            SimpleAction::Place(squirtle(), 1),
            SimpleAction::Attack(0),
            SimpleAction::EndTurn
        ]
    );

    state.move_generation_stack.push((0, vec![SimpleAction::EndTurn]));
    state.move_generation_stack.push(
        (1, vec![SimpleAction::Activate { in_play_idx: 2 }, SimpleAction::DrawCard]),
    );
    let (actor, list, stacked) = moves(&state);
    assert_eq!((actor, stacked), (1, true));
    assert_eq!(list, vec![SimpleAction::Activate { in_play_idx: 2 }, SimpleAction::DrawCard]);

    // Answering removes the decision, whatever the answer does.
    answer(&mut state, 1, SimpleAction::DrawCard);
    assert_eq!(state.move_generation_stack, vec![(0, vec![SimpleAction::EndTurn])]);
    let (actor, list, stacked) = moves(&state);
    assert_eq!((actor, stacked), (0, true));
    assert_eq!(list, vec![SimpleAction::EndTurn]);
    answer(&mut state, 0, SimpleAction::EndTurn);
    assert!(state.move_generation_stack.is_empty());
    assert_eq!(state.current_player, 1);
}

#[test]
fn drawing_a_card() {
    let mut state = board();
    state.decks[0].cards = vec![koffing(), squirtle()];
    act(&mut state, 0, SimpleAction::DrawCard);
    assert_eq!(state.hands[0], vec![squirtle()]);
    act(&mut state, 0, SimpleAction::DrawCard);
    assert_eq!(state.hands[0], vec![squirtle(), koffing()]);
    let before = state.clone();
    act(&mut state, 0, SimpleAction::DrawCard);
    assert_eq!(state, before);
}
