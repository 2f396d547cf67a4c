//! Turn-based tic-tac-toe between pairs of chat users: the board and its
//! rules, sessions with turn gating and a cursor, a single waiting slot
//! that pairs players, the registry of live sessions, and the controller
//! that turns an input event into a change of state and a list of renders.
//!
//! The library holds no handle to the outside world. A host feeds it
//! player actions and carries out what it answers:
//!
//! * [`game::Game`] is the state: who waits and which sessions are live. Its
//!   entry points are `command`, `handle_start` and `handle_input`.
//! * [`controller`] gives the rules for inputs as functions on the model of
//!   that state, and [`matchmaker`], [`registry`], [`session`] and
//!   [`board`] the parts they are made of.
//! * [`render`] says what is to be shown after a change and to whom,
//!   [`messages`] with which words, and [`canvas`] draws the empty grid
//!   and the frame round the selected square.
//!
//! Every function states what it returns and changes over the mathematical
//! model of its data, and is verified against that statement. The calls
//! into the `image` and `imageproc` crates in [`canvas`] are the one
//! exception: their contracts are taken on trust.

pub mod board;
pub mod session;
pub mod registry;
pub mod matchmaker;
pub mod render;
pub mod controller;
pub mod game;
pub mod canvas;
pub mod messages;
