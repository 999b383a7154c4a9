use deckgym::actions::Action;
use deckgym::actions::SimpleAction;
use deckgym::models::Attack;
use deckgym::models::Card;
use deckgym::models::EnergyType;
use deckgym::models::PlayedCard;
use deckgym::models::PokemonCard;
use deckgym::models::TrainerCard;
use deckgym::models::TrainerType;
use deckgym::players::Player;
use deckgym::state::Deck;
use deckgym::state::State;
use deckgym::tool_ids::ToolId;
use deckgym::Game;
use rand::rngs::StdRng;
use deckgym::actions::apply_action_with_pick;
use deckgym::generate_possible_actions;
use deckgym::hooks::to_playable_card;

#[allow(dead_code)]
fn attack(title: &str, cost: Vec<EnergyType>, damage: u32, effect: Option<&str>) -> Attack {
    Attack {
        energy_required: cost,
        title: title.to_string(),
        fixed_damage: damage,
        effect: effect.map(|text| text.to_string()),
    }
}

#[allow(dead_code)]
fn creature(
    id: &str,
    name: &str,
    hp: u32,
    energy_type: EnergyType,
    weakness: Option<EnergyType>,
    attacks: Vec<Attack>,
) -> Card {
    Card::Pokemon(PokemonCard {
        id: id.to_string(),
        name: name.to_string(),
        stage: 0,
        evolves_from: None,
        basic_form: None,
        hp,
        energy_type,
        weakness,
        ability: None,
        attacks,
        retreat_cost: vec![EnergyType::Colorless],
    })
}

#[allow(dead_code)]
fn bulbasaur() -> Card {
    creature(
        "A1 001",
        "Bulbasaur",
        70,
        EnergyType::Grass,
        Some(EnergyType::Fire),
        vec![attack("Vine Whip", vec![EnergyType::Grass, EnergyType::Colorless], 40, None)],
    )
}

#[allow(dead_code)]
fn squirtle() -> Card {
    creature(
        "A1 053",
        "Squirtle",
        60,
        EnergyType::Water,
        Some(EnergyType::Lightning),
        vec![attack("Water Gun", vec![EnergyType::Water], 20, None)],
    )
}

#[allow(dead_code)]
fn exeggcute() -> Card {
    creature(
        "A1 021",
        "Exeggcute",
        50,
        EnergyType::Grass,
        Some(EnergyType::Fire),
        vec![attack("Seed Bomb", vec![EnergyType::Grass], 20, None)],
    )
}

#[allow(dead_code)]
fn koffing() -> Card {
    creature(
        "A1 176",
        "Koffing",
        70,
        EnergyType::Darkness,
        Some(EnergyType::Fighting),
        vec![attack("Suffocating Gas", vec![EnergyType::Darkness], 20, None)],
    )
}

#[allow(dead_code)]
fn trainer(id: &str, name: &str, kind: TrainerType) -> TrainerCard {
    TrainerCard { id: id.to_string(), name: name.to_string(), trainer_card_type: kind }
}

#[allow(dead_code)]
fn deck_of(card: &Card, copies: usize, energy: EnergyType) -> Deck {
    Deck { cards: vec![card.clone(); copies], energy_types: vec![energy] }
}

#[allow(dead_code)]
fn in_turn(turn: u8) -> State {
    let mut state = State::default();
    state.turn_count = turn;
    state
}

fn weedle() -> Card {
    creature(
        "A2b 001",
        "Weedle",
        50,
        EnergyType::Grass,
        Some(EnergyType::Fire),
        vec![attack(
            "Multiply",
            vec![EnergyType::Grass],
            0,
            Some("Put 1 Weedle from your deck onto your Bench."),
        )],
    )
}

fn dialga_ex() -> Card {
    creature(
        "A2 119",
        "Dialga ex",
        150,
        EnergyType::Metal,
        Some(EnergyType::Fire),
        vec![
            attack(
                "Metallic Turbo",
                vec![EnergyType::Metal, EnergyType::Metal],
                30,
                Some(
                    "Take 2 Metal Energy from your Energy Zone and attach it to 1 of your Benched Pokemon.",
                ),
            ),
            attack(
                "Heavy Impact",
                vec![
                    EnergyType::Metal,
                    EnergyType::Metal,
                    EnergyType::Colorless,
                    EnergyType::Colorless,
                ],
                100,
                None,
            ),
        ],
    )
}

/// Ends the turn when that is allowed, promotes the last benched creature
/// when a promotion is asked for, and otherwise takes the first action.
struct ScriptedPlayer {
    deck: Deck,
}

impl Player for ScriptedPlayer {
    fn get_deck(&self) -> Deck {
        self.deck.clone()
    }

    fn decision_fn(&mut self, _rng: &mut StdRng, _state: &State, possible_actions: &Vec<Action>) -> Action {
        for action in possible_actions {
            if matches!(action.action, SimpleAction::EndTurn) {
                return action.clone();
            }
        }
        if matches!(possible_actions[0].action, SimpleAction::Activate { .. }) {
            return possible_actions[possible_actions.len() - 1].clone();
        }
        possible_actions[0].clone()
    }
}

fn get_initialized_game(seed: u64) -> Game {
    let players: Vec<Box<dyn Player>> = vec![
        Box::new(ScriptedPlayer { deck: deck_of(&bulbasaur(), 20, EnergyType::Grass) }),
        Box::new(ScriptedPlayer { deck: deck_of(&squirtle(), 20, EnergyType::Water) }),
    ];
    let mut game = Game::new(players, seed);
    while game.get_state_clone().turn_count == 0 {
        game.play_tick();
    }
    game
}

#[test]
fn test_weedle_multiply_attack() {
    // Create a custom state with Weedle in active and another in deck
    let weedle_card = weedle();

    // Initialize with basic decks
    let mut game = get_initialized_game(0);
    let mut state = game.get_state_clone();

    // Set up player 0 with Weedle in active position
    let active_weedle = PlayedCard::new(
        weedle_card.clone(),
        50,                      // remaining_hp
        50,                      // total_hp
        vec![EnergyType::Grass], // Has 1 Grass energy to use Multiply
        false,
        vec![],
    );
    state.in_play_pokemon[0][0] = Some(active_weedle);

    // Add another Weedle to the deck
    state.decks[0].cards.push(weedle_card.clone());

    // Count bench pokemon before attack
    let bench_count_before = state.enumerate_bench_pokemon(0).len();

    game.set_state(state);

    // Apply Multiply attack
    let attack_action = Action {
        actor: 0,
        action: SimpleAction::Attack(0), // First attack (Multiply)
        is_stack: false,
    };
    game.apply_action(&attack_action);

    let state = game.get_state_clone();

    // Assert that a Weedle was added to the bench
    let bench_count_after = state.enumerate_bench_pokemon(0).len();
    assert_eq!(
        bench_count_after,
        bench_count_before + 1,
        "Multiply should add one Weedle to the bench"
    );

    // Verify it's actually a Weedle on the bench
    let benched_pokemon: Vec<_> = state.enumerate_bench_pokemon(0);
    let last_benched = benched_pokemon.last();
    assert!(last_benched.is_some(), "Should have a pokemon on bench");
    assert_eq!(
        last_benched.unwrap().1.get_name(),
        "Weedle",
        "The benched pokemon should be Weedle"
    );
}

/// Test Dialga ex's Metallic Turbo attack which attaches 2 Metal energies to bench Pokemon
/// and triggers a Rocky Helmet knockout counterattack. This is an edge case to ensure that
/// attack effects are resolved before handling knockouts and promotions.
#[test]
fn test_dialga_rocky_helmet_knockout_with_energy_attach() {
    // Start with an initialized game to have proper deck structures
    let mut game = get_initialized_game(42);
    let mut state = game.get_state_clone();

    // Set up Player 0 (acting player) with Dialga ex
    let dialga = dialga_ex();
    let dialga_played = PlayedCard::new(
        dialga.clone(),
        20,  // Low HP so Rocky Helmet counterattack will KO it
        150, // Dialga ex total HP
        vec![EnergyType::Metal, EnergyType::Metal],
        false,
        vec![],
    );
    state.in_play_pokemon[0][0] = Some(dialga_played);

    // Add 3 bench Pokémon for Player 0
    let bulbasaur = bulbasaur();
    state.in_play_pokemon[0][1] = Some(PlayedCard::new(
        bulbasaur.clone(),
        70,
        70,
        vec![],
        false,
        vec![],
    ));
    state.in_play_pokemon[0][2] = Some(PlayedCard::new(
        bulbasaur.clone(),
        70,
        70,
        vec![],
        false,
        vec![],
    ));
    state.in_play_pokemon[0][3] = Some(PlayedCard::new(
        bulbasaur.clone(),
        70,
        70,
        vec![],
        false,
        vec![],
    ));

    // Set up Player 1 (opponent) with a basic Pokémon with Rocky Helmet
    let squirtle = squirtle();
    let squirtle_played = PlayedCard::new(
        squirtle.clone(),
        50, // HP
        50,
        vec![],
        false,
        vec![],
    );
    // Attach Rocky Helmet
    let mut squirtle_with_tool = squirtle_played;
    squirtle_with_tool.attached_tool = Some(ToolId::A2148RockyHelmet);
    state.in_play_pokemon[1][0] = Some(squirtle_with_tool);

    // Add 1 bench Pokémon for Player 1
    state.in_play_pokemon[1][1] = Some(PlayedCard::new(
        squirtle.clone(),
        50,
        50,
        vec![],
        false,
        vec![],
    ));

    // Both players start at 0 points
    state.points = [0, 0];

    // Set up proper turn state
    state.turn_count = 3;
    state.current_player = 0;

    // Update the game with our modified state
    game.set_state(state);

    // Apply the Attack action (index 0 = Metallic Turbo)
    let attack_action = Action {
        actor: 0,
        action: SimpleAction::Attack(0),
        is_stack: false,
    };
    game.apply_action(&attack_action);

    // The attack should queue up an energy attachment action
    let state = game.get_state_clone();
    assert!(
        !state.move_generation_stack.is_empty(),
        "Move generation stack should have actions queued"
    );

    // Continue with play_tick() until the next turn or game over
    let initial_turn = state.turn_count;
    let mut iterations = 0;
    let max_iterations = 100; // Safety limit

    while iterations < max_iterations {
        let state = game.get_state_clone();

        // Break if game is over or turn has advanced
        if game.is_game_over() || state.turn_count > initial_turn {
            break;
        }

        game.play_tick();
        iterations += 1;
    }

    // Final state assertions
    let final_state = game.get_state_clone();

    // Dialga should be knocked out (not in active spot anymore)
    // Since Dialga takes 20 counterattack damage and has 20 HP, it should be KO'd
    // A promotion should have occurred (originally 3 bench + active, now should have active)
    let active = final_state.get_active(0);
    assert_ne!(
        active.card.get_name(),
        "Dialga ex",
        "Dialga should have been knocked out"
    );
    assert_eq!(
        final_state.points[1], 2,
        "Player 1 should have 2 points from knocking out Dialga ex"
    );

    // At least one bench Pokémon should have Metal energies attached
    // (from Metallic Turbo's effect)
    let total_metal_on_bench: usize = final_state
        .enumerate_bench_pokemon(0)
        .iter()
        .map(|(_, p)| {
            p.attached_energy
                .iter()
                .filter(|e| **e == EnergyType::Metal)
                .count()
        })
        .sum();
    assert!(
        total_metal_on_bench >= 2,
        "Expected at least 2 Metal energies on bench (from Metallic Turbo), found {}",
        total_metal_on_bench
    );
}

/// The order in which an attack is resolved can be read off the state
/// right after it: the bench holds the new creature, the attacker is gone,
/// the opponent has scored, and what is left to decide is pending with the
/// attack's own choice first, the promotion next and the end of the turn
/// last.
#[test]
fn attack_resolves_effects_then_knockouts_then_promotions() {
    let mut state = in_turn(3);
    let mut dialga = to_playable_card(&dialga_ex(), false);
    dialga.remaining_hp = 20;
    dialga.attached_energy = vec![EnergyType::Metal, EnergyType::Metal];
    state.in_play_pokemon[0][0] = Some(dialga);
    state.in_play_pokemon[0][1] = Some(to_playable_card(&bulbasaur(), false));
    state.in_play_pokemon[0][3] = Some(to_playable_card(&bulbasaur(), false));
    let mut defender = to_playable_card(&squirtle(), false);
    defender.attached_tool = Some(ToolId::A2148RockyHelmet);
    state.in_play_pokemon[1][0] = Some(defender);

    let attack_action = Action { actor: 0, action: SimpleAction::Attack(0), is_stack: false };
    apply_action_with_pick(&mut state, &attack_action, 0);

    assert_eq!(state.get_remaining_hp(1, 0), 30);
    assert!(state.in_play_pokemon[0][0].is_none());
    assert_eq!(state.points, [0, 2]);
    assert_eq!(state.discard_piles[0].len(), 1);
    assert_eq!(state.discard_piles[0][0].get_name(), "Dialga ex");
    assert_eq!(state.discard_energies[0], vec![EnergyType::Metal, EnergyType::Metal]);
    assert_eq!(state.winner, None);
    assert_eq!(state.turn_count, 3);

    let stack = &state.move_generation_stack;
    assert_eq!(stack.len(), 3);
    assert_eq!(stack[0], (0, vec![SimpleAction::EndTurn]));
    assert_eq!(
        stack[1],
        (
            0,
            vec![
                SimpleAction::Activate { in_play_idx: 1 },
                SimpleAction::Activate { in_play_idx: 3 }
            ]
        )
    );
    assert_eq!(
        stack[2],
        (
            0,
            vec![
                SimpleAction::Attach {
                    in_play_idx: 1,
                    energy: EnergyType::Metal,
                    count: 2,
                    is_turn_energy: false
                },
                SimpleAction::Attach {
                    in_play_idx: 3,
                    energy: EnergyType::Metal,
                    count: 2,
                    is_turn_energy: false
                },
            ]
        )
    );

    // The legal actions are the answers to the most urgent decision only.
    let (actor, actions) = generate_possible_actions(&state);
    assert_eq!(actor, 0);
    assert_eq!(actions.len(), 2);
    assert!(actions.iter().all(|a| a.is_stack && a.actor == 0));
    assert!(matches!(actions[1].action, SimpleAction::Attach { in_play_idx: 3, .. }));

    // Attach to the bench, promote, and the turn ends.
    apply_action_with_pick(&mut state, &actions[1], 0);
    assert_eq!(
        state.in_play_pokemon[0][3].as_ref().unwrap().attached_energy,
        vec![EnergyType::Metal, EnergyType::Metal]
    );
    let (_, actions) = generate_possible_actions(&state);
    assert_eq!(actions.len(), 2);
    assert!(matches!(actions[0].action, SimpleAction::Activate { in_play_idx: 1 }));
    apply_action_with_pick(&mut state, &actions[0], 0);
    assert_eq!(state.get_active(0).get_name(), "Bulbasaur");
    assert!(state.in_play_pokemon[0][1].is_none());
    let (_, actions) = generate_possible_actions(&state);
    assert_eq!(actions.len(), 1);
    assert!(matches!(actions[0].action, SimpleAction::EndTurn));
    apply_action_with_pick(&mut state, &actions[0], 0);
    assert!(state.move_generation_stack.is_empty());
    assert_eq!(state.turn_count, 4);
    assert_eq!(state.current_player, 1);
}
