//! A declarative UI layout engine.
//!
//! Every element's position and size is expressed as a constraint
//! relative to the screen, its parent, itself, or another element. The
//! engine resolves these into concrete pixel values once per frame,
//! with lazy pull-based evaluation, per-frame memoisation, cycle
//! detection, and a resolution-independent scaling model that keeps
//! pixel constraints stable across DPI and window-size changes.
//!
//! All geometry is carried by exact rational scalars
//! ([`rational::Rational`]), so every resolved value is a precise
//! function of the constraint graph. The engine's contracts revolve
//! around three public relations in [`engine`]:
//!
//! - `evolves` says what any evaluation may do to the arena: keep the
//!   declarative state, only resolve caches, update scale factors by
//!   the growth rule, and leave every newly resolved slot consistent
//!   with its rule (`pos_ok`, `size_ok`) over the resulting state;
//! - `pos_query_ok` and `size_query_ok` pin each public query:
//!   memoised values are returned unchanged, cycles are reported, the
//!   default, literal and self-referential rules are resolved to
//!   their exact values, and success is owed on every *ready* rule —
//!   one whose inputs are already resolved and whose exact
//!   arithmetic is representable (`pos_ready`, `size_ready`).
//!
//! The crate also carries the small verified pieces around the engine:
//! a keyed entity/component store with a closed component set
//! ([`ecs`]), a level-filtered logging buffer ([`logger`]), per-frame
//! input action states ([`window`]), and quad corner groups
//! ([`assets`]).

pub mod assets;
pub mod config;
pub mod constraints;
pub mod ecs;
pub mod engine;
pub mod logger;
pub mod rational;
pub mod window;
