//! A minimal generic interaction loop: raw user input is decoded into domain
//! inputs, a domain transition function evolves the owned state and emits an
//! event, and an event handler decides whether the loop goes on. Two domains
//! plug into the loop: a vending machine and a game of tic-tac-toe.

pub mod application;
pub mod candy_machine;
pub mod tic_tac_toe;
