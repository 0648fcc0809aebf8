use prime_number_game::errors::EngineError;
use prime_number_game::game::{Game, GameStatus, InputEvent, OutputEvent};
use prime_number_game::policy::{get_bounds, get_total_retry};

// test get_total_retry
#[test]
fn test_get_total_retry() {
    let level = 2;
    let leftover = 3;
    assert_eq!(get_total_retry(level, leftover), 2 * level + 3 + leftover);
}

// test get_bounds
#[test]
fn test_get_bounds() {
    let level = 2;
    assert_eq!(get_bounds(2), (level * 1000, (level + 1) * 1000));
}

// test new methods
#[test]
fn test_method_new() {
    let game = Game::new();
    assert_eq!(game.level, 1);
    assert_eq!(game.total_retry, get_total_retry(1, 0));
    assert_eq!(game.retry_count, 0);
    assert_eq!(game.screen_messages, Vec::<String>::new());
    assert_eq!(game.bounds, get_bounds(1));
    assert_eq!(game.secret_number, 0);
    assert_eq!(game.known_primes.primes, Vec::<u64>::new());
}

// the secret drawn for a level lies within the level's bounds
#[test]
fn test_start_level_draws_within_bounds() {
    let mut game = Game::new();
    let ev = game.start_level();
    assert!(game.bounds.0 <= game.secret_number && game.secret_number <= game.bounds.1);
    assert_eq!(
        ev,
        OutputEvent::LevelStarted {
            level: 1,
            lower: 1000,
            upper: 2000,
            secret_number: game.secret_number
        }
    );
}

// the end-to-end scenario: secret 1009 at level 1, correct answer 1013
#[test]
fn test_correct_guess_clears_level() {
    let mut game = Game::new();
    game.start_level_with(1009);
    let ev = game.submit_guess(1013);
    assert_eq!(ev, Ok(OutputEvent::LevelCleared { new_level: 2 }));
    assert_eq!(game.level, 2);
    assert_eq!(game.bounds, (2000, 3000));
    // all five retries were unused, so level 2 grants 2*2 + 3 + 5
    assert_eq!(game.total_retry, 12);
    assert_eq!(game.retry_count, 0);
}

#[test]
fn test_wrong_guess_costs_a_retry() {
    let mut game = Game::new();
    game.start_level_with(1009);
    let ev = game.submit_guess(1000);
    assert_eq!(ev, Ok(OutputEvent::WrongGuess { retries_left: 4 }));
    assert_eq!(game.level, 1);
    assert_eq!(game.retry_count, 1);
}

// the carry-over: clearing level 1 with two wrong guesses leaves three of
// five retries, so level 2 grants 2*2 + 3 + 3 = 10
#[test]
fn test_level_up_carry_over() {
    let mut game = Game::new();
    assert_eq!(game.total_retry, 5);
    game.start_level_with(1009);
    assert_eq!(game.submit_guess(1000), Ok(OutputEvent::WrongGuess { retries_left: 4 }));
    assert_eq!(game.submit_guess(1001), Ok(OutputEvent::WrongGuess { retries_left: 3 }));
    assert_eq!(game.submit_guess(1013), Ok(OutputEvent::LevelCleared { new_level: 2 }));
    assert_eq!(game.level, 2);
    assert_eq!(game.total_retry, 10);
    assert_eq!(game.retry_count, 0);
}

// the game-over boundary: with a budget of five, the fourth consecutive
// wrong guess leaves play running and the fifth ends the game
#[test]
fn test_game_over_boundary() {
    let mut game = Game::new();
    game.start_level_with(1009);
    for k in 1..=3 {
        assert_eq!(
            game.submit_guess(1000),
            Ok(OutputEvent::WrongGuess { retries_left: 5 - k })
        );
    }
    assert_eq!(game.submit_guess(1000), Ok(OutputEvent::WrongGuess { retries_left: 1 }));
    assert_eq!(game.status, GameStatus::AwaitingGuess);
    assert_eq!(
        game.submit_guess(1000),
        Ok(OutputEvent::GameOver { correct_answer: Some(1013) })
    );
    assert_eq!(game.status, GameStatus::GameOver);
    // no guess is accepted in a terminal state
    assert_eq!(game.submit_guess(1013), Err(EngineError::InvalidTransition));
}

// a guess before any level was started finds no usable prime table
#[test]
fn test_guess_before_start_is_a_precondition_error() {
    let mut game = Game::new();
    assert_eq!(game.submit_guess(5), Err(EngineError::Precondition));
}

// quit ends the game at once, whatever the retries left
#[test]
fn test_quit_is_terminal() {
    let mut game = Game::new();
    game.start_level_with(1009);
    assert_eq!(game.submit_guess(1000), Ok(OutputEvent::WrongGuess { retries_left: 4 }));
    let ev = game.quit();
    assert_eq!(ev, OutputEvent::GameOver { correct_answer: Some(1013) });
    assert_eq!(game.status, GameStatus::GameOver);
    assert_eq!(game.submit_guess(1013), Err(EngineError::InvalidTransition));
}

// quitting before any level was started cannot name the answer
#[test]
fn test_quit_without_start() {
    let mut game = Game::new();
    let ev = game.quit();
    assert_eq!(ev, OutputEvent::GameOver { correct_answer: None });
    assert_eq!(game.status, GameStatus::GameOver);
}

// restart after reaching level 5 with a nonzero retry count returns the
// engine to the state of a brand-new game
#[test]
fn test_restart_resets_to_level_one() {
    let mut game = Game::new();
    game.start_level_with(1009);
    assert_eq!(game.submit_guess(1013), Ok(OutputEvent::LevelCleared { new_level: 2 }));
    game.start_level_with(2002);
    assert_eq!(game.submit_guess(2003), Ok(OutputEvent::LevelCleared { new_level: 3 }));
    game.start_level_with(3010);
    assert_eq!(game.submit_guess(3011), Ok(OutputEvent::LevelCleared { new_level: 4 }));
    game.start_level_with(4000);
    assert_eq!(game.submit_guess(4001), Ok(OutputEvent::LevelCleared { new_level: 5 }));
    assert_eq!(game.level, 5);
    game.start_level_with(5009);
    assert!(matches!(game.submit_guess(5000), Ok(OutputEvent::WrongGuess { .. })));
    assert!(game.retry_count > 0);
    let ev = game.restart();
    assert_eq!(ev, OutputEvent::Restarted);
    assert_eq!(game.level, 1);
    assert_eq!(game.retry_count, 0);
    assert_eq!(game.total_retry, get_total_retry(1, 0));
    assert_eq!(game.status, GameStatus::AwaitingGuess);
}

// the same transitions through the event-dispatching entry point
#[test]
fn test_apply_dispatches_events() {
    let mut game = Game::new();
    game.start_level_with(1009);
    assert_eq!(
        game.apply(InputEvent::Guess(1000)),
        Ok(OutputEvent::WrongGuess { retries_left: 4 })
    );
    assert_eq!(game.apply(InputEvent::Restart), Ok(OutputEvent::Restarted));
    assert_eq!(game.level, 1);
    game.start_level_with(1012);
    assert_eq!(
        game.apply(InputEvent::Guess(1013)),
        Ok(OutputEvent::LevelCleared { new_level: 2 })
    );
    assert!(matches!(
        game.apply(InputEvent::Quit),
        Ok(OutputEvent::GameOver { .. })
    ));
    assert_eq!(game.status, GameStatus::GameOver);
}
