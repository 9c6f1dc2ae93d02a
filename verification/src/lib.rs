//! Game rules, state machines and data tables of a collection of small
//! arcade mini-games (a visual novel, a night-shift survival game, a
//! top-down shooter, a colour-switching platformer and more), written so
//! that each decision can be stated and checked.

// Shared building blocks.
pub mod layers;
pub mod palette;
pub mod seqs;
pub mod states;
pub mod text;
pub mod tilemap;
pub mod music;
pub mod hints;
pub mod character;

// The games, in the order they are met.
pub mod novel;
pub mod pacman_eat;
pub mod flappy;
pub mod geometry;
pub mod platformer;
pub mod fake_end;
pub mod fnaf;
pub mod miami;
pub mod weapon;
pub mod shadows;
pub mod map;
pub mod chase;
pub mod dialog;
pub mod finale;
