//! A prime-number guessing game engine, with the small data types that
//! grew up around it.
//!
//! The heart of the crate is the game: a level-by-level guessing game in
//! which the player must name the smallest prime above a secret number.
//! The [`primes`] module keeps an incrementally extended table of primes,
//! [`policy`] computes each level's numeric range and retry budget, and
//! [`game`] drives the state machine that consumes player inputs and emits
//! display events.  Around it live a complex-number type ([`complex`]), an
//! enum-shaped linked list ([`linked_list`]), plane geometry with line
//! equations ([`geometry`]), a person record ([`person`]), the fizzbuzz
//! word game ([`fizzbuzz`]), and the decimal rendering ([`decimal`]) they
//! all print with.

pub mod complex;
pub mod decimal;
pub mod errors;
pub mod fizzbuzz;
pub mod game;
pub mod geometry;
pub mod linked_list;
pub mod person;
pub mod policy;
pub mod primes;
