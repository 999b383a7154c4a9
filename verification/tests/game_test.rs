use deckgym::models::Attack;
use deckgym::models::Card;
use deckgym::models::EnergyType;
use deckgym::models::PokemonCard;
use deckgym::models::TrainerCard;
use deckgym::models::TrainerType;
use deckgym::players::AttachAttackPlayer;
use deckgym::players::EndTurnPlayer;
use deckgym::players::Player;
use deckgym::state::Deck;
use deckgym::state::GameOutcome;
use deckgym::state::State;
use deckgym::Game;
use deckgym::actions::Action;
use deckgym::actions::SimpleAction;
use deckgym::game::SimulationEventHandler;
use deckgym::generate_possible_actions;
use std::cell::RefCell;
use std::rc::Rc;
use deckgym::players::settle_choice;
use rand::rngs::StdRng;

#[allow(dead_code)]
fn attack(title: &str, cost: Vec<EnergyType>, damage: u32, effect: Option<&str>) -> Attack {
    Attack {
        energy_required: cost,
        title: title.to_string(),
        fixed_damage: damage,
        effect: effect.map(|text| text.to_string()),
    }
}

#[allow(dead_code)]
fn creature(
    id: &str,
    name: &str,
    hp: u32,
    energy_type: EnergyType,
    weakness: Option<EnergyType>,
    attacks: Vec<Attack>,
) -> Card {
    Card::Pokemon(PokemonCard {
        id: id.to_string(),
        name: name.to_string(),
        stage: 0,
        evolves_from: None,
        basic_form: None,
        hp,
        energy_type,
        weakness,
        ability: None,
        attacks,
        retreat_cost: vec![EnergyType::Colorless],
    })
}

#[allow(dead_code)]
fn bulbasaur() -> Card {
    creature(
        "A1 001",
        "Bulbasaur",
        70,
        EnergyType::Grass,
        Some(EnergyType::Fire),
        vec![attack("Vine Whip", vec![EnergyType::Grass, EnergyType::Colorless], 40, None)],
    )
}

#[allow(dead_code)]
fn squirtle() -> Card {
    creature(
        "A1 053",
        "Squirtle",
        60,
        EnergyType::Water,
        Some(EnergyType::Lightning),
        vec![attack("Water Gun", vec![EnergyType::Water], 20, None)],
    )
}

#[allow(dead_code)]
fn exeggcute() -> Card {
    creature(
        "A1 021",
        "Exeggcute",
        50,
        EnergyType::Grass,
        Some(EnergyType::Fire),
        vec![attack("Seed Bomb", vec![EnergyType::Grass], 20, None)],
    )
}

#[allow(dead_code)]
fn koffing() -> Card {
    creature(
        "A1 176",
        "Koffing",
        70,
        EnergyType::Darkness,
        Some(EnergyType::Fighting),
        vec![attack("Suffocating Gas", vec![EnergyType::Darkness], 20, None)],
    )
}

#[allow(dead_code)]
fn trainer(id: &str, name: &str, kind: TrainerType) -> TrainerCard {
    TrainerCard { id: id.to_string(), name: name.to_string(), trainer_card_type: kind }
}

#[allow(dead_code)]
fn deck_of(card: &Card, copies: usize, energy: EnergyType) -> Deck {
    Deck { cards: vec![card.clone(); copies], energy_types: vec![energy] }
}

#[allow(dead_code)]
fn in_turn(turn: u8) -> State {
    let mut state = State::default();
    state.turn_count = turn;
    state
}

fn load_test_decks() -> (Deck, Deck) {
    (
        deck_of(&exeggcute(), 20, EnergyType::Grass),
        deck_of(&koffing(), 20, EnergyType::Darkness),
    )
}

#[test]
fn test_poison() {
    let (deck_a, deck_b) = load_test_decks();
    let player_a = Box::new(AttachAttackPlayer { deck: deck_a });
    let player_b = Box::new(EndTurnPlayer { deck: deck_b });
    let players: Vec<Box<dyn Player>> = vec![player_a, player_b];
    let mut game = Game::new(players, 3);

    // Play initial setup phase
    while game.get_state_clone().turn_count == 0 {
        game.play_tick();
    }

    // Manually poison the opponent's Koffing
    let mut state = game.get_state_clone();
    state.in_play_pokemon[1][0].as_mut().unwrap().poisoned = true;
    game.set_state(state);

    // The game starts with AA playing. After each turn 10 damage should be subtracted.
    // So ending 1 Koffing should have 60HP, 2 => 50HP, 3 => 40HP, 4 => 30HP, 5 => 20HP
    while game.get_state_clone().turn_count == 1 {
        game.play_tick();
    }
    // Koffing should have 60 HP starting turn 2
    assert_eq!(game.get_state_clone().get_remaining_hp(1, 0), 60);
    while game.get_state_clone().turn_count == 2 {
        game.play_tick();
    }
    // Koffing should have 50 HP starting turn 3
    assert_eq!(game.get_state_clone().get_remaining_hp(1, 0), 50);
    while game.get_state_clone().turn_count == 3 {
        game.play_tick();
    }

    // Now play the rest. AA should win b.c. ET has no bench pokemon
    let winner = game.play();
    assert_eq!(game.get_state_clone().turn_count, 5);
    assert_eq!(winner, Some(GameOutcome::Win(0)));
}

#[test]
fn test_ko_by_posion() {
    let (deck_a, deck_b) = load_test_decks();
    let player_a = Box::new(EndTurnPlayer { deck: deck_a });
    let player_b = Box::new(AttachAttackPlayer { deck: deck_b });
    let players: Vec<Box<dyn Player>> = vec![player_a, player_b];
    let mut game = Game::new(players, 4); // EndTurnPlayer starts

    // Turn 1, EE ends. Turn 2, AA attaches and attacks. Exeggcute should have 30 HP.
    // Turn 3, ET ends. We artificially poision, so that after playing out turn 4
    // (AA attacks) Exeggcute has 10 HP and KO from poison.
    while game.get_state_clone().turn_count < 4 {
        game.play_tick();
    }
    assert_eq!(game.get_state_clone().get_remaining_hp(0, 0), 30);

    // Artificially poison Exeggcute
    let mut state = game.get_state_clone();
    state.in_play_pokemon[0][0].as_mut().unwrap().poisoned = true;
    game.set_state(state);

    // Turn 45, AA attacks. After ending, AA should win since no bench.
    while game.get_state_clone().turn_count == 4 {
        game.play_tick();
    }
    assert_eq!(game.get_state_clone().points[0], 0);
    assert_eq!(game.get_state_clone().points[1], 1);
    game.play();
    assert_eq!(game.get_state_clone().turn_count, 5);
}

fn numbered_deck(prefix: &str, energy_types: Vec<EnergyType>) -> Deck {
    let mut cards = Vec::new();
    for k in 0..20 {
        cards.push(creature(
            &format!("{} {:03}", prefix, k),
            &format!("{} {}", prefix, k),
            60,
            energy_types[0],
            None,
            vec![attack("Tackle", vec![EnergyType::Colorless], 10 + k, None)],
        ));
    }
    Deck { cards, energy_types }
}

fn ids(cards: &Vec<Card>) -> Vec<String> {
    cards.iter().map(|card| card.get_id()).collect()
}

fn record_game(seed: u64) -> (Vec<Action>, State) {
    let players: Vec<Box<dyn Player>> = vec![
        Box::new(AttachAttackPlayer {
            deck: numbered_deck("TA", vec![EnergyType::Grass, EnergyType::Fire]),
        }),
        Box::new(AttachAttackPlayer {
            deck: numbered_deck("TB", vec![EnergyType::Water, EnergyType::Metal]),
        }),
    ];
    let mut game = Game::new(players, seed);
    let mut actions = Vec::new();
    while !game.is_game_over() && actions.len() < 2000 {
        actions.push(game.play_tick());
    }
    (actions, game.get_state_clone())
}

#[test]
fn the_same_seed_gives_the_same_game() {
    let (actions_a, state_a) = record_game(11);
    let (actions_b, state_b) = record_game(11);
    assert!(state_a.is_game_over());
    assert!(!actions_a.is_empty());
    assert_eq!(actions_a, actions_b);
    assert_eq!(state_a, state_b);

    let (actions_c, state_c) = record_game(12);
    assert!(state_c.is_game_over());
    assert!(actions_c != actions_a || state_c != state_a);
}

#[test]
fn a_new_game_deals_from_shuffled_decks() {
    let deck_a = numbered_deck("TA", vec![EnergyType::Grass]);
    let deck_b = numbered_deck("TB", vec![EnergyType::Water]);
    let players: Vec<Box<dyn Player>> = vec![
        Box::new(EndTurnPlayer { deck: deck_a.clone() }),
        Box::new(EndTurnPlayer { deck: deck_b.clone() }),
    ];
    let game = Game::new(players, 1);
    let state = game.get_state_clone();
    assert!(state.current_player < 2);
    assert_eq!(state.turn_count, 0);
    assert_eq!(state.winner, None);
    assert_eq!(state.points, [0, 0]);
    assert!(state.move_generation_stack.is_empty());
    assert!(state.enumerate_in_play_pokemon(0).is_empty());
    assert!(state.enumerate_in_play_pokemon(1).is_empty());

    for (player, deck) in [(0, &deck_a), (1, &deck_b)] {
        assert_eq!(state.hands[player].len(), 5);
        assert_eq!(state.decks[player].cards.len(), 15);
        assert_eq!(state.decks[player].energy_types, deck.energy_types);
        // The same cards, each once.
        let mut all = ids(&state.decks[player].cards);
        all.extend(ids(&state.hands[player]));
        all.sort();
        let mut given = ids(&deck.cards);
        given.sort();
        assert_eq!(all, given);
        // Not in the order in which the deck came.
        assert_ne!(ids(&state.decks[player].cards), ids(&deck.cards)[..15].to_vec());
    }
}

#[test]
fn dealing_without_shuffling_takes_the_top_cards_in_order() {
    let deck_a = numbered_deck("TA", vec![EnergyType::Grass]);
    let deck_b = Deck { cards: vec![koffing(), squirtle()], energy_types: vec![] };
    let state = State::deal(&deck_a, &deck_b, 1);
    assert_eq!(state.current_player, 1);
    assert_eq!(ids(&state.decks[0].cards), ids(&deck_a.cards)[..15].to_vec());
    assert_eq!(
        ids(&state.hands[0]),
        vec!["TA 019", "TA 018", "TA 017", "TA 016", "TA 015"]
    );
    assert_eq!(state.hands[1], vec![squirtle(), koffing()]);
    assert!(state.decks[1].cards.is_empty());
}

#[test]
fn the_energy_of_a_turn_is_one_that_the_deck_generates() {
    let players: Vec<Box<dyn Player>> = vec![
        Box::new(
            EndTurnPlayer { deck: numbered_deck("TA", vec![EnergyType::Grass, EnergyType::Fire]) },
        ),
        Box::new(EndTurnPlayer { deck: numbered_deck("TB", vec![EnergyType::Water]) }),
    ];
    let mut game = Game::new(players, 5);
    let mut grass = 0;
    let mut fire = 0;
    let mut water = 0;
    let mut last_turn = 0;
    while !game.is_game_over() && game.get_state_clone().turn_count < 90 {
        game.play_tick();
        let state = game.get_state_clone();
        if state.turn_count != last_turn {
            last_turn = state.turn_count;
            match (state.current_player, state.current_energy) {
                (0, Some(EnergyType::Grass)) => grass += 1,
                (0, Some(EnergyType::Fire)) => fire += 1,
                (1, Some(EnergyType::Water)) => water += 1,
                (_, None) => assert_eq!(state.turn_count, 1),
                (player, energy) => panic!("player {} got {:?}", player, energy),
            }
        }
    }
    assert!(grass > 0);
    assert!(fire > 0);
    assert!(water > 0);
    assert_eq!(grass + fire + water, 89);
}

struct Recorder {
    log: Rc<RefCell<Vec<(usize, usize, Action)>>>,
}

impl SimulationEventHandler for Recorder {
    fn on_action(&mut self, actor: usize, playable_actions: &Vec<Action>, action: &Action) {
        assert!(playable_actions.contains(action));
        self.log.borrow_mut().push((actor, playable_actions.len(), action.clone()));
    }
}

#[test]
fn an_observer_hears_of_every_decision() {
    let (deck_a, deck_b) = load_test_decks();
    let players: Vec<Box<dyn Player>> = vec![
        Box::new(AttachAttackPlayer { deck: deck_a }),
        Box::new(EndTurnPlayer { deck: deck_b }),
    ];
    let log = Rc::new(RefCell::new(Vec::new()));
    let mut game =
        Game::new_with_event_handlers(players, 3, Box::new(Recorder { log: log.clone() }));
    let mut taken = Vec::new();
    for _ in 0..6 {
        let before = game.get_state_clone();
        let (actor, actions) = generate_possible_actions(&before);
        let action = game.play_tick();
        assert_eq!(action.actor, actor);
        assert!(actions.contains(&action));
        taken.push((actor, actions.len(), action));
    }
    assert_eq!(*log.borrow(), taken);

    assert!(game.take_event_handler().is_some());
    game.play_tick();
    assert_eq!(log.borrow().len(), 6);
    assert!(game.take_event_handler().is_none());
}

#[test]
fn a_game_from_a_state_plays_to_the_end() {
    let mut state = in_turn(1);
    state.in_play_pokemon[0][0] = Some(deckgym::hooks::to_playable_card(&exeggcute(), false));
    state.in_play_pokemon[1][0] = Some(deckgym::hooks::to_playable_card(&koffing(), false));
    state.decks[0].energy_types = vec![EnergyType::Grass];
    let players: Vec<Box<dyn Player>> = vec![
        Box::new(AttachAttackPlayer { deck: deck_of(&exeggcute(), 1, EnergyType::Grass) }),
        Box::new(EndTurnPlayer { deck: deck_of(&koffing(), 1, EnergyType::Darkness) }),
    ];
    let mut game = Game::from_state(state.clone(), players, 9);
    assert_eq!(game.get_state_clone(), state);
    assert!(!game.is_game_over());

    // Turn 3, 5, 7 and 9: four attacks of 20 take the defender's 70.
    let outcome = game.play();
    assert_eq!(outcome, Some(GameOutcome::Win(0)));
    assert!(game.is_game_over());
    let end = game.get_state_clone();
    assert_eq!(end.winner, outcome);
    assert_eq!(end.turn_count, 9);
    assert_eq!(end.points, [1, 0]);
    assert!(end.in_play_pokemon[1][0].is_none());

    // Playing on changes nothing about the outcome.
    assert_eq!(game.play(), Some(GameOutcome::Win(0)));
    assert_eq!(game.get_state_clone(), end);
}

#[test]
fn players_choose_by_preference() {
    let end = Action { actor: 0, action: SimpleAction::EndTurn, is_stack: false };
    let attack = Action { actor: 0, action: SimpleAction::Attack(1), is_stack: false };
    let feed_bench = Action {
        actor: 0,
        action: SimpleAction::Attach {
            in_play_idx: 2,
            energy: EnergyType::Grass,
            count: 1,
            is_turn_energy: true,
        },
        is_stack: false,
    };
    let feed_active = Action {
        actor: 0,
        action: SimpleAction::Attach {
            in_play_idx: 0,
            energy: EnergyType::Grass,
            count: 1,
            is_turn_energy: true,
        },
        is_stack: false,
    };
    let draw = Action { actor: 0, action: SimpleAction::DrawCard, is_stack: true };

    let all = vec![
        feed_bench.clone(),
        draw.clone(),
        attack.clone(),
        feed_active.clone(),
        end.clone(),
    ];
    assert_eq!(AttachAttackPlayer::preferred_index(&all), 3);
    assert_eq!(EndTurnPlayer::preferred_index(&all), 4);
    let no_feed = vec![feed_bench.clone(), draw.clone(), end.clone(), attack.clone()];
    assert_eq!(AttachAttackPlayer::preferred_index(&no_feed), 3);
    assert_eq!(EndTurnPlayer::preferred_index(&no_feed), 2);
    let no_attack = vec![feed_bench.clone(), end.clone(), draw.clone()];
    assert_eq!(AttachAttackPlayer::preferred_index(&no_attack), 1);
    let none = vec![feed_bench.clone(), draw.clone()];
    assert_eq!(AttachAttackPlayer::preferred_index(&none), 0);
    assert_eq!(EndTurnPlayer::preferred_index(&none), 0);
}

#[test]
fn either_player_may_move_first() {
    let mut firsts = [0, 0];
    for seed in 0..16u64 {
        let (deck_a, deck_b) = load_test_decks();
        let players: Vec<Box<dyn Player>> = vec![
            Box::new(EndTurnPlayer { deck: deck_a }),
            Box::new(EndTurnPlayer { deck: deck_b }),
        ];
        let game = Game::new(players, seed);
        assert_eq!(game.get_seed(), seed);
        let state = game.get_state_clone();
        assert!(state.is_well_formed());
        firsts[state.current_player] += 1;
    }
    assert!(firsts[0] > 0);
    assert!(firsts[1] > 0);
}

#[test]
fn a_state_that_names_a_third_player_is_not_well_formed() {
    let mut state = State::default();
    assert!(state.is_well_formed());
    state.current_player = 2;
    assert!(!state.is_well_formed());
    state.current_player = 1;
    state.move_generation_stack.push((1, vec![SimpleAction::EndTurn]));
    assert!(state.is_well_formed());
    state.move_generation_stack.push((2, vec![SimpleAction::EndTurn]));
    assert!(!state.is_well_formed());
    state.move_generation_stack.pop();
    state.move_generation_stack.push((0, vec![]));
    assert!(!state.is_well_formed());
}

/// Answers with an action that is never legal.
struct Stubborn {
    deck: Deck,
}

impl Player for Stubborn {
    fn get_deck(&self) -> Deck {
        self.deck.clone()
    }

    fn decision_fn(&mut self, _rng: &mut StdRng, _state: &State, _possible_actions: &Vec<Action>) -> Action {
        Action { actor: 7, action: SimpleAction::Attack(99), is_stack: true }
    }
}

#[test]
fn an_answer_that_is_not_legal_counts_as_the_first_legal_action() {
    let end = Action { actor: 1, action: SimpleAction::EndTurn, is_stack: false };
    let attack = Action { actor: 1, action: SimpleAction::Attack(0), is_stack: false };
    let legal = vec![attack.clone(), end.clone()];
    assert_eq!(settle_choice(&legal, end.clone()), end);
    assert_eq!(settle_choice(&legal, attack.clone()), attack);
    // The same move by another player, or marked otherwise, is another action.
    let other = Action { actor: 0, action: SimpleAction::EndTurn, is_stack: false };
    assert_eq!(settle_choice(&legal, other), attack);
    let stacked = Action { actor: 1, action: SimpleAction::EndTurn, is_stack: true };
    assert_eq!(settle_choice(&legal, stacked), attack);
    let place = Action { actor: 1, action: SimpleAction::Place(koffing(), 1), is_stack: false };
    let other_place =
        Action { actor: 1, action: SimpleAction::Place(exeggcute(), 1), is_stack: false };
    assert_eq!(settle_choice(&vec![end.clone(), place.clone()], place.clone()), place);
    assert_eq!(settle_choice(&vec![end.clone(), place.clone()], other_place), end);

    let (deck_a, deck_b) = load_test_decks();
    let players: Vec<Box<dyn Player>> =
        vec![Box::new(Stubborn { deck: deck_a }), Box::new(Stubborn { deck: deck_b })];
    let mut game = Game::new(players, 2);
    let mut asked = 0;
    for _ in 0..40 {
        if game.is_game_over() {
            break;
        }
        let (_, actions) = generate_possible_actions(&game.get_state_clone());
        let taken = game.play_tick();
        assert_eq!(taken, actions[0]);
        if actions.len() > 1 {
            asked += 1;
        }
    }
    assert!(asked > 0);
    assert!(game.get_state_clone().is_well_formed());
}
