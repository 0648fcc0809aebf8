//! The prime-number guessing game engine.
//!
//! A game tracks the current level, the retry budget (with unused retries
//! carried into the next level), the numeric range the level plays in, a
//! secret number drawn from that range, and the table of known primes.  The
//! player must name the smallest prime strictly greater than the secret
//! number; a correct guess advances the level, and exhausting the retry
//! budget ends the game.

use rand::Rng;
use vstd::prelude::*;

use crate::errors::EngineError;
use crate::policy::{get_bounds, get_total_retry, spec_bounds, spec_total_retry};
use crate::primes::{is_next_prime_after, is_prime, PrimeTable};

verus! {

/// A player input, as handed over by the presentation layer.
#[derive(Clone, Copy, Debug, PartialEq, Eq)]
pub enum InputEvent {
    Guess(u64),
    Quit,
    Restart,
}

/// What the engine reports back to the presentation layer.
#[derive(Clone, Copy, Debug, PartialEq, Eq)]
pub enum OutputEvent {
    LevelStarted { level: u64, lower: u64, upper: u64, secret_number: u64 },
    WrongGuess { retries_left: u64 },
    LevelCleared { new_level: u64 },
    GameOver { correct_answer: Option<u64> },
    Restarted,
}

/// The two lasting states of the engine; clearing a level passes through
/// no lasting intermediate state, it advances immediately.
#[derive(Clone, Copy, Debug, PartialEq, Eq)]
pub enum GameStatus {
    AwaitingGuess,
    GameOver,
}

/// The game engine's state.
pub struct Game {
    pub level: u64,
    pub total_retry: u64,
    pub retry_count: u64,
    pub screen_messages: Vec<String>,
    pub bounds: (u64, u64),
    pub secret_number: u64,
    pub known_primes: PrimeTable,
    pub status: GameStatus,
}

impl Game {
    /// A valid engine state: the level counts from 1, no more retries are
    /// consumed than granted (strictly fewer while play goes on), and the
    /// prime table is well-formed.
    pub open spec fn wf(self) -> bool {
        &&& 1 <= self.level
        &&& self.retry_count <= self.total_retry
        &&& (self.status == GameStatus::AwaitingGuess ==> self.retry_count < self.total_retry)
        &&& self.known_primes.wf()
    }

    /// A fresh game: level 1, the level-1 retry budget with no carry-over,
    /// nothing drawn yet and no primes known.
    pub fn new() -> (g: Game)
        ensures
            g.wf(),
            g.level == 1,
            g.total_retry == spec_total_retry(1, 0),
            g.retry_count == 0,
            g.screen_messages@ == Seq::<String>::empty(),
            g.bounds.0 == spec_bounds(1).0,
            g.bounds.1 == spec_bounds(1).1,
            g.secret_number == 0,
            g.known_primes.covered == 0,
            g.known_primes.primes@ == Seq::<u64>::empty(),
            g.status == GameStatus::AwaitingGuess,
    {
        Game {
            level: 1,
            total_retry: get_total_retry(1, 0),
            retry_count: 0,
            screen_messages: Vec::new(),
            bounds: get_bounds(1),
            secret_number: 0,
            known_primes: PrimeTable::new(),
            status: GameStatus::AwaitingGuess,
        }
    }

    /// Moves to the next level; every other part of the state is untouched.
    pub fn increment_level(&mut self)
        requires
            old(self).wf(),
            old(self).level < u64::MAX,
        ensures
            final(self).wf(),
            final(self).level == old(self).level + 1,
            final(self).total_retry == old(self).total_retry,
            final(self).retry_count == old(self).retry_count,
            final(self).screen_messages@ == old(self).screen_messages@,
            final(self).bounds == old(self).bounds,
            final(self).secret_number == old(self).secret_number,
            final(self).known_primes == old(self).known_primes,
            final(self).status == old(self).status,
    {
        self.level += 1;
    }

    /// Extends the prime table to the upper bound of the next level, so
    /// that the answer for any secret of the current level is at hand
    /// whenever a prime exists below that mark.
    pub fn generate_primes(&mut self)
        requires
            old(self).wf(),
            (old(self).level + 2) * 1000 < u64::MAX,
        ensures
            final(self).wf(),
            final(self).known_primes.covered == (if spec_bounds(old(self).level + 1).1
                > old(self).known_primes.covered {
                spec_bounds(old(self).level + 1).1
            } else {
                old(self).known_primes.covered as int
            }),
            final(self).known_primes.covered >= spec_bounds(old(self).level + 1).1,
            final(self).level == old(self).level,
            final(self).total_retry == old(self).total_retry,
            final(self).retry_count == old(self).retry_count,
            final(self).screen_messages@ == old(self).screen_messages@,
            final(self).bounds == old(self).bounds,
            final(self).secret_number == old(self).secret_number,
            final(self).status == old(self).status,
    {
        let bounds = get_bounds(self.level + 1);
        self.known_primes.extend_to(bounds.1);
    }

    /// Sets the current level up around a given secret: recomputes the
    /// retry budget with the carry-over of unused retries, clears the
    /// consumed count and the messages, recomputes the bounds, installs
    /// the secret and extends the prime table past the level.
    pub fn initialize_level_with(&mut self, secret: u64)
        requires
            old(self).wf(),
            2 * old(self).level + 3 + (old(self).total_retry - old(self).retry_count)
                <= u64::MAX,
            (old(self).level + 2) * 1000 < u64::MAX,
            spec_bounds(old(self).level as int).0 <= secret <= spec_bounds(
                old(self).level as int,
            ).1,
        ensures
            final(self).wf(),
            final(self).level == old(self).level,
            final(self).total_retry == spec_total_retry(
                old(self).level as int,
                old(self).total_retry - old(self).retry_count,
            ),
            final(self).retry_count == 0,
            final(self).screen_messages@ == Seq::<String>::empty(),
            final(self).bounds.0 == spec_bounds(old(self).level as int).0,
            final(self).bounds.1 == spec_bounds(old(self).level as int).1,
            final(self).secret_number == secret,
            final(self).known_primes.covered >= spec_bounds(old(self).level + 1).1,
            final(self).known_primes.covered >= old(self).known_primes.covered,
            final(self).status == GameStatus::AwaitingGuess,
    {
        self.total_retry = get_total_retry(self.level, self.total_retry - self.retry_count);
        self.retry_count = 0;
        self.screen_messages = Vec::new();
        self.bounds = get_bounds(self.level);
        self.secret_number = secret;
        self.generate_primes();
        self.status = GameStatus::AwaitingGuess;
    }

    /// As `initialize_level_with`, with the secret drawn at random from the
    /// level's range.
    pub fn initialize_level(&mut self)
        requires
            old(self).wf(),
            2 * old(self).level + 3 + (old(self).total_retry - old(self).retry_count)
                <= u64::MAX,
            (old(self).level + 2) * 1000 < u64::MAX,
        ensures
            final(self).wf(),
            final(self).level == old(self).level,
            final(self).total_retry == spec_total_retry(
                old(self).level as int,
                old(self).total_retry - old(self).retry_count,
            ),
            final(self).retry_count == 0,
            final(self).screen_messages@ == Seq::<String>::empty(),
            final(self).bounds.0 == spec_bounds(old(self).level as int).0,
            final(self).bounds.1 == spec_bounds(old(self).level as int).1,
            final(self).bounds.0 <= final(self).secret_number <= final(self).bounds.1,
            final(self).known_primes.covered >= spec_bounds(old(self).level + 1).1,
            final(self).known_primes.covered >= old(self).known_primes.covered,
            final(self).status == GameStatus::AwaitingGuess,
    {
        let bounds = get_bounds(self.level);
        let secret = generate_random_number(bounds);
        self.initialize_level_with(secret);
    }

    /// Begins play on the current level without touching the retry budget:
    /// draws nothing anew budget-wise — the budget of a fresh or restarted
    /// game is already set with no carry-over — but installs the given
    /// secret and extends the prime table past the level.
    pub fn start_level_with(&mut self, secret: u64) -> (ev: OutputEvent)
        requires
            old(self).wf(),
            (old(self).level + 2) * 1000 < u64::MAX,
            spec_bounds(old(self).level as int).0 <= secret <= spec_bounds(
                old(self).level as int,
            ).1,
        ensures
            final(self).wf(),
            final(self).level == old(self).level,
            final(self).total_retry == old(self).total_retry,
            final(self).retry_count == old(self).retry_count,
            final(self).screen_messages@ == old(self).screen_messages@,
            final(self).bounds.0 == spec_bounds(old(self).level as int).0,
            final(self).bounds.1 == spec_bounds(old(self).level as int).1,
            final(self).secret_number == secret,
            final(self).known_primes.covered >= spec_bounds(old(self).level + 1).1,
            final(self).known_primes.covered >= old(self).known_primes.covered,
            final(self).status == old(self).status,
            ev == (OutputEvent::LevelStarted {
                level: old(self).level,
                lower: spec_bounds(old(self).level as int).0 as u64,
                upper: spec_bounds(old(self).level as int).1 as u64,
                secret_number: secret,
            }),
    {
        self.bounds = get_bounds(self.level);
        self.secret_number = secret;
        self.generate_primes();
        OutputEvent::LevelStarted {
            level: self.level,
            lower: self.bounds.0,
            upper: self.bounds.1,
            secret_number: secret,
        }
    }

    /// As `start_level_with`, with the secret drawn at random.
    pub fn start_level(&mut self) -> (ev: OutputEvent)
        requires
            old(self).wf(),
            (old(self).level + 2) * 1000 < u64::MAX,
        ensures
            final(self).wf(),
            final(self).level == old(self).level,
            final(self).total_retry == old(self).total_retry,
            final(self).retry_count == old(self).retry_count,
            final(self).screen_messages@ == old(self).screen_messages@,
            final(self).bounds.0 == spec_bounds(old(self).level as int).0,
            final(self).bounds.1 == spec_bounds(old(self).level as int).1,
            final(self).bounds.0 <= final(self).secret_number <= final(self).bounds.1,
            final(self).known_primes.covered >= spec_bounds(old(self).level + 1).1,
            final(self).known_primes.covered >= old(self).known_primes.covered,
            final(self).status == old(self).status,
            ev == (OutputEvent::LevelStarted {
                level: old(self).level,
                lower: spec_bounds(old(self).level as int).0 as u64,
                upper: spec_bounds(old(self).level as int).1 as u64,
                secret_number: final(self).secret_number,
            }),
    {
        let bounds = get_bounds(self.level);
        let secret = generate_random_number(bounds);
        self.start_level_with(secret)
    }
}

/// What a correct guess leaves behind: the next level, freshly initialized,
/// with the unused retries of the cleared level carried into its budget.
pub open spec fn cleared_post(pre: Game, post: Game) -> bool {
    &&& post.level == pre.level + 1
    &&& post.total_retry == spec_total_retry(pre.level + 1, pre.total_retry - pre.retry_count)
    &&& post.retry_count == 0
    &&& post.screen_messages@ == Seq::<String>::empty()
    &&& post.bounds.0 == spec_bounds(pre.level + 1).0
    &&& post.bounds.1 == spec_bounds(pre.level + 1).1
    &&& post.bounds.0 <= post.secret_number <= post.bounds.1
    &&& post.known_primes.covered >= spec_bounds(pre.level + 2).1
    &&& post.known_primes.covered >= pre.known_primes.covered
    &&& post.status == GameStatus::AwaitingGuess
}

/// All parts of the state a wrong guess leaves untouched.
pub open spec fn unchanged_but_retries(pre: Game, post: Game) -> bool {
    &&& post.level == pre.level
    &&& post.total_retry == pre.total_retry
    &&& post.screen_messages@ == pre.screen_messages@
    &&& post.bounds == pre.bounds
    &&& post.secret_number == pre.secret_number
    &&& post.known_primes == pre.known_primes
}

/// The full effect of submitting a guess.
pub open spec fn guess_post(
    pre: Game,
    post: Game,
    guess: u64,
    r: Result<OutputEvent, EngineError>,
) -> bool {
    &&& (pre.status == GameStatus::GameOver ==> r == Err::<OutputEvent, EngineError>(
        EngineError::InvalidTransition,
    ) && post == pre)
    &&& (pre.status == GameStatus::AwaitingGuess ==> {
        &&& ((forall|q: int|
            pre.secret_number < q < pre.known_primes.covered ==> !(#[trigger] is_prime(q)))
            ==> r == Err::<OutputEvent, EngineError>(EngineError::Precondition) && post == pre)
        &&& (forall|p: u64|
            (#[trigger] is_next_prime_after(pre.secret_number as int, p as int))
                && p < pre.known_primes.covered ==> if guess == p {
                &&& r == Ok::<OutputEvent, EngineError>(OutputEvent::LevelCleared {
                    new_level: (pre.level + 1) as u64,
                })
                &&& cleared_post(pre, post)
            } else if pre.retry_count + 1 < pre.total_retry {
                &&& r == Ok::<OutputEvent, EngineError>(OutputEvent::WrongGuess {
                    retries_left: (pre.total_retry - pre.retry_count - 1) as u64,
                })
                &&& post.retry_count == pre.retry_count + 1
                &&& post.status == GameStatus::AwaitingGuess
                &&& unchanged_but_retries(pre, post)
            } else {
                &&& r == Ok::<OutputEvent, EngineError>(OutputEvent::GameOver {
                    correct_answer: Some(p),
                })
                &&& post.retry_count == pre.retry_count + 1
                &&& post.status == GameStatus::GameOver
                &&& unchanged_but_retries(pre, post)
            })
    })
}

/// The effect of quitting: the state turns terminal and nothing else moves;
/// the answer is reported when the table reaches past it.
pub open spec fn quit_post(pre: Game, post: Game, ev: OutputEvent) -> bool {
    &&& post.status == GameStatus::GameOver
    &&& post.level == pre.level
    &&& post.total_retry == pre.total_retry
    &&& post.retry_count == pre.retry_count
    &&& post.screen_messages@ == pre.screen_messages@
    &&& post.bounds == pre.bounds
    &&& post.secret_number == pre.secret_number
    &&& post.known_primes == pre.known_primes
    &&& (forall|p: u64|
        (#[trigger] is_next_prime_after(pre.secret_number as int, p as int))
            && p < pre.known_primes.covered ==> ev == (OutputEvent::GameOver {
            correct_answer: Some(p),
        }))
    &&& ((forall|q: int|
        pre.secret_number < q < pre.known_primes.covered ==> !(#[trigger] is_prime(q))) ==> ev
        == (OutputEvent::GameOver { correct_answer: None::<u64> }))
}

/// The effect of restarting: the state of a brand-new game, except that the
/// primes already found are kept — primality does not depend on the level.
pub open spec fn restart_post(pre: Game, post: Game, ev: OutputEvent) -> bool {
    &&& post.level == 1
    &&& post.total_retry == spec_total_retry(1, 0)
    &&& post.retry_count == 0
    &&& post.screen_messages@ == Seq::<String>::empty()
    &&& post.bounds.0 == spec_bounds(1).0
    &&& post.bounds.1 == spec_bounds(1).1
    &&& post.secret_number == 0
    &&& post.known_primes == pre.known_primes
    &&& post.status == GameStatus::AwaitingGuess
    &&& ev == OutputEvent::Restarted
}

impl Game {
    /// Validates a guess against the next prime after the secret number.
    /// A correct guess clears the level; a wrong one consumes a retry and,
    /// when the budget is exhausted, ends the game.  In a terminal state the
    /// guess is rejected; so is a query the table cannot answer.
    pub fn submit_guess(&mut self, guess: u64) -> (r: Result<OutputEvent, EngineError>)
        requires
            old(self).wf(),
            2 * (old(self).level + 1) + 3 + (old(self).total_retry - old(self).retry_count)
                <= u64::MAX,
            (old(self).level + 3) * 1000 < u64::MAX,
        ensures
            final(self).wf(),
            guess_post(*old(self), *final(self), guess, r),
    {
        match self.status {
            GameStatus::GameOver => Err(EngineError::InvalidTransition),
            GameStatus::AwaitingGuess => {
                let answer = match self.known_primes.next_prime_after(self.secret_number) {
                    Ok(p) => p,
                    Err(e) => {
                        return Err(e);
                    },
                };
                proof {
                    assert forall|p: u64|
                        (#[trigger] is_next_prime_after(
                            old(self).secret_number as int,
                            p as int,
                        )) && p < old(self).known_primes.covered implies p == answer by {
                        crate::primes::lemma_next_prime_after_unique(
                            old(self).secret_number as int,
                            p as int,
                            answer as int,
                        );
                    }
                }
                if guess == answer {
                    self.increment_level();
                    self.initialize_level();
                    Ok(OutputEvent::LevelCleared { new_level: self.level })
                } else {
                    self.retry_count += 1;
                    if self.retry_count >= self.total_retry {
                        self.status = GameStatus::GameOver;
                        Ok(OutputEvent::GameOver { correct_answer: Some(answer) })
                    } else {
                        Ok(OutputEvent::WrongGuess {
                            retries_left: self.total_retry - self.retry_count,
                        })
                    }
                }
            },
        }
    }

    /// Ends the game at once, from any state; no further input is processed.
    pub fn quit(&mut self) -> (ev: OutputEvent)
        requires
            old(self).wf(),
        ensures
            final(self).wf(),
            quit_post(*old(self), *final(self), ev),
    {
        self.status = GameStatus::GameOver;
        proof {
            assert forall|p: u64|
                (#[trigger] is_next_prime_after(old(self).secret_number as int, p as int))
                    && p < old(self).known_primes.covered implies !(forall|q: int|
                old(self).secret_number < q < old(self).known_primes.covered ==> !(
                #[trigger] is_prime(q))) by {
                assert(is_prime(p as int));
            }
        }
        match self.known_primes.next_prime_after(self.secret_number) {
            Ok(p) => {
                proof {
                    assert forall|p2: u64|
                        (#[trigger] is_next_prime_after(
                            old(self).secret_number as int,
                            p2 as int,
                        )) && p2 < old(self).known_primes.covered implies p2 == p by {
                        crate::primes::lemma_next_prime_after_unique(
                            old(self).secret_number as int,
                            p2 as int,
                            p as int,
                        );
                    }
                }
                OutputEvent::GameOver { correct_answer: Some(p) }
            },
            Err(_) => OutputEvent::GameOver { correct_answer: None },
        }
    }

    /// Returns the engine to the state of a brand-new game, keeping the
    /// primes already computed.
    pub fn restart(&mut self) -> (ev: OutputEvent)
        requires
            old(self).wf(),
        ensures
            final(self).wf(),
            restart_post(*old(self), *final(self), ev),
    {
        self.level = 1;
        self.total_retry = get_total_retry(1, 0);
        self.retry_count = 0;
        self.screen_messages = Vec::new();
        self.bounds = get_bounds(1);
        self.secret_number = 0;
        self.status = GameStatus::AwaitingGuess;
        OutputEvent::Restarted
    }

    /// Applies one player input to the engine, dispatching on the event.
    pub fn apply(&mut self, input: InputEvent) -> (r: Result<OutputEvent, EngineError>)
        requires
            old(self).wf(),
            2 * (old(self).level + 1) + 3 + (old(self).total_retry - old(self).retry_count)
                <= u64::MAX,
            (old(self).level + 3) * 1000 < u64::MAX,
        ensures
            final(self).wf(),
            forall|g: u64|
                input == InputEvent::Guess(g) ==> guess_post(*old(self), *final(self), g, r),
            input == InputEvent::Quit ==> (r matches Ok(ev) && quit_post(
                *old(self),
                *final(self),
                ev,
            )),
            input == InputEvent::Restart ==> (r matches Ok(ev) && restart_post(
                *old(self),
                *final(self),
                ev,
            )),
    {
        match input {
            InputEvent::Guess(g) => self.submit_guess(g),
            InputEvent::Quit => Ok(self.quit()),
            InputEvent::Restart => Ok(self.restart()),
        }
    }
}

/// Relies on rand's `Rng::gen_range` on the thread-local generator: a draw
/// from the inclusive range `lo..=hi` lies between the two bounds.  The
/// range must be non-empty, since `gen_range` panics on an empty one.
#[verifier::external_body]
fn generate_random_number(bounds: (u64, u64)) -> (r: u64)
    requires
        bounds.0 <= bounds.1,
    ensures
        bounds.0 <= r <= bounds.1,
{
    rand::thread_rng().gen_range(bounds.0..=bounds.1)
}

/// The retry budget carries over: a fresh game grants five retries at level
/// 1, and clearing level 1 after two wrong guesses leaves three of them,
/// for a level-2 budget of ten.
pub proof fn lemma_level_up_carry_over(
    pre: Game,
    post: Game,
    p: u64,
    r: Result<OutputEvent, EngineError>,
)
    requires
        pre.status == GameStatus::AwaitingGuess,
        guess_post(pre, post, p, r),
        is_next_prime_after(pre.secret_number as int, p as int),
        p < pre.known_primes.covered,
        pre.level == 1,
        pre.total_retry == 5,
        pre.retry_count == 2,
    ensures
        spec_total_retry(1, 0) == 5,
        post.level == 2,
        post.total_retry == 10,
        post.retry_count == 0,
{
}

/// The game-over boundary: out of a budget of five retries with the same
/// wrong guess repeated, the fourth wrong guess leaves play running and the
/// fifth ends the game.
pub proof fn lemma_game_over_boundary(
    pre: Game,
    post: Game,
    guess: u64,
    p: u64,
    r: Result<OutputEvent, EngineError>,
)
    requires
        pre.status == GameStatus::AwaitingGuess,
        guess_post(pre, post, guess, r),
        is_next_prime_after(pre.secret_number as int, p as int),
        p < pre.known_primes.covered,
        guess != p,
        pre.total_retry == 5,
    ensures
        pre.retry_count == 3 ==> post.status == GameStatus::AwaitingGuess,
        pre.retry_count == 4 ==> post.status == GameStatus::GameOver,
{
}

} // verus!
