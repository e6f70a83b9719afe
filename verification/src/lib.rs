//! Layered resolution of a closed three-entity consumption cycle.
//!
//! Three entities — snakes, slugs and frogs — reference one another in a
//! fixed 3-cycle: every snake is eaten by a slug, every slug by a frog and
//! every frog by a snake.  The library resolves relational queries over this
//! cycle ("the snake eating the frog eating a given slug") through three
//! independently swappable layers: data access (one entity by its own
//! identity), orchestration (one hop along the cycle) and composition (two
//! hops).  Three wiring strategies connect the layers; all are proved to
//! produce identical results from the same underlying lookup tables.
//!
//! Every lookup is specified as a pure outcome function of the backing
//! repositories, and every layer's contract pins its result to the
//! composition of the outcomes below it, including the fail-fast error
//! policy: the first failing lookup decides the whole chain.

pub mod cake_pattern;
pub mod database;
pub mod domain;
pub mod doubles;
pub mod has_all_dependency;
pub mod laws;
pub mod message_queue;
pub mod trait_bound;
