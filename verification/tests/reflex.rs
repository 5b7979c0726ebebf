use gaming_hub::reflex::Game;
use gaming_hub::reflex::GamePhase;
use gaming_hub::reflex::TrialEvent;
use gaming_hub::reflex::TrialOutcome;
use gaming_hub::reflex::get_key_pressed;

fn event(word: &str, key: char, time_ms: u32) -> TrialEvent {
    TrialEvent { word: word.to_string(), key, time_ms }
}

#[test]
fn key_mapping_is_direct_for_lowercase_and_opposite_for_uppercase() {
    let game = Game::new();
    assert!(game.is_correct_key("left", 'q'));
    assert!(game.is_correct_key("right", 'd'));
    assert!(game.is_correct_key("LEFT", 'd'));
    assert!(game.is_correct_key("RIGHT", 'q'));
    assert!(!game.is_correct_key("left", 'd'));
    assert!(!game.is_correct_key("right", 'q'));
    assert!(!game.is_correct_key("LEFT", 'q'));
    assert!(!game.is_correct_key("RIGHT", 'd'));
    assert!(!game.is_correct_key("left", 'x'));
    assert!(!game.is_correct_key("sideways", 'q'));
}

#[test]
fn threshold_is_integer_mean_plus_half() {
    let times = vec![200, 300, 250, 200, 300, 250, 200, 300, 250, 200];
    // The sample sums to 2450 over ten trials: mean 245, threshold 367.
    assert_eq!(Game::compute_target(&times), 245 + 245 / 2);
}

#[test]
fn scenario_mean_250_gives_threshold_375() {
    let times = vec![250; 10];
    assert_eq!(Game::compute_target(&times), 375);
}

#[test]
fn empty_calibration_sample_falls_back_to_zero() {
    let times: Vec<u32> = Vec::new();
    assert_eq!(Game::compute_target(&times), 0);
}

#[test]
fn phase_one_scores_correct_keys_and_collects_their_times() {
    let mut game = Game::new();
    game.record_trial(&GamePhase::Phase1, "left", 'q', 200);
    game.record_trial(&GamePhase::Phase1, "right", 'q', 999);
    game.record_trial(&GamePhase::Phase1, "right", 'd', 300);
    assert_eq!(game.score, 2);
    assert_eq!(game.phase1_reaction_times, vec![200, 300]);
    assert_eq!(game.total_reaction_time, 200 + 999 + 300);
}

#[test]
fn scenario_fast_press_scores_and_slow_press_does_not() {
    let mut game = Game::new();
    for _ in 0..10 {
        game.record_trial(&GamePhase::Phase1, "left", 'q', 250);
    }
    game.prepare_phase2();
    assert_eq!(game.target_reaction_time, 375);
    let fast = game.record_trial(&GamePhase::Phase2, "LEFT", 'd', 370);
    assert_eq!(fast, TrialOutcome::Scored);
    let slow = game.record_trial(&GamePhase::Phase2, "LEFT", 'd', 380);
    assert_eq!(slow, TrialOutcome::CorrectButSlow);
    let wrong = game.record_trial(&GamePhase::Phase2, "LEFT", 'q', 100);
    assert_eq!(wrong, TrialOutcome::Wrong);
    assert_eq!(game.score, 10 + 1);
}

#[test]
fn run_processes_a_whole_phase_in_order() {
    let mut game = Game::new();
    let phase1 = vec![
        event("left", 'q', 200),
        event("right", 'd', 300),
        event("left", 'd', 400),
        event("right", 'q', 500),
        event("left", 'q', 100),
    ];
    game.run(&GamePhase::Phase1, &phase1);
    assert_eq!(game.score, 3);
    assert_eq!(game.phase1_reaction_times, vec![200, 300, 100]);
    assert_eq!(game.total_reaction_time, 1500);

    // Mean 200, threshold 300: only the fast correct answers score.
    let phase2 = vec![
        event("LEFT", 'd', 299),
        event("LEFT", 'd', 301),
        event("RIGHT", 'q', 300),
        event("right", 'd', 1000),
        event("left", 'q', 0),
    ];
    game.run(&GamePhase::Phase2, &phase2);
    assert_eq!(game.target_reaction_time, 300);
    assert_eq!(game.score, 3 + 3);
    assert_eq!(game.total_reaction_time, 1500 + 299 + 301 + 300 + 1000);
}

#[test]
fn key_is_first_character_of_the_line() {
    assert_eq!(get_key_pressed("q"), 'q');
    assert_eq!(get_key_pressed("dog"), 'd');
    assert_eq!(get_key_pressed(""), '\n');
}
