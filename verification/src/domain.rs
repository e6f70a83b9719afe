//! The shared domain: entity identities, entity snapshots, the error
//! taxonomy, the capability traits of the three layers, and the pure
//! outcome functions that every layer's contract is stated against.

use vstd::prelude::*;

verus! {

/// Identity of a snake: an opaque value with equality and a zero default.
#[derive(Clone, Copy, Debug, PartialEq, Eq, Structural)]
pub struct SnakeID(pub u64);

/// Identity of a slug.
#[derive(Clone, Copy, Debug, PartialEq, Eq, Structural)]
pub struct SlugID(pub u64);

/// Identity of a frog.
#[derive(Clone, Copy, Debug, PartialEq, Eq, Structural)]
pub struct FrogID(pub u64);

impl Default for SnakeID {
    /// The zero identity, the starting point of the entry-point queries.
    fn default() -> (r: Self)
        ensures
            r == SnakeID(0),
    {
        SnakeID(0)
    }
}

impl Default for SlugID {
    /// The zero identity, the starting point of the entry-point queries.
    fn default() -> (r: Self)
        ensures
            r == SlugID(0),
    {
        SlugID(0)
    }
}

impl Default for FrogID {
    /// The zero identity, the starting point of the entry-point queries.
    fn default() -> (r: Self)
        ensures
            r == FrogID(0),
    {
        FrogID(0)
    }
}

/// A snake, an immutable snapshot returned by a lookup.  Every snake is
/// eaten by exactly one slug.
#[derive(Clone, Copy, Debug, PartialEq, Eq, Structural)]
pub struct Snake {
    pub id: SnakeID,
    pub eaten_by: SlugID,
}

/// A slug.  Every slug is eaten by exactly one frog.
#[derive(Clone, Copy, Debug, PartialEq, Eq, Structural)]
pub struct Slug {
    pub id: SlugID,
    pub eaten_by: FrogID,
}

/// A frog.  Every frog is eaten by exactly one snake, closing the cycle.
#[derive(Clone, Copy, Debug, PartialEq, Eq, Structural)]
pub struct Frog {
    pub id: FrogID,
    pub eaten_by: SnakeID,
}

impl Default for Snake {
    fn default() -> (r: Self)
        ensures
            r == (Snake { id: SnakeID(0), eaten_by: SlugID(0) }),
    {
        Snake { id: SnakeID(0), eaten_by: SlugID(0) }
    }
}

impl Default for Slug {
    fn default() -> (r: Self)
        ensures
            r == (Slug { id: SlugID(0), eaten_by: FrogID(0) }),
    {
        Slug { id: SlugID(0), eaten_by: FrogID(0) }
    }
}

impl Default for Frog {
    fn default() -> (r: Self)
        ensures
            r == (Frog { id: FrogID(0), eaten_by: SnakeID(0) }),
    {
        Frog { id: FrogID(0), eaten_by: SnakeID(0) }
    }
}

/// Why a lookup failed.  Every layer propagates the first error it meets
/// unchanged: no layer catches, wraps or retries.
#[derive(Clone, Copy, Debug, PartialEq, Eq, Structural)]
pub enum ResolveError {
    /// The identity has no corresponding entity.
    NotFound,
    /// The backing collaborator could not be reached.
    Unavailable,
    /// The identity itself is malformed.
    Invalid,
}

/// Data-access capability: resolve a snake by its own identity.
pub trait SnakeRepository: Sized {
    /// The outcome this repository gives for each snake identity.
    spec fn snake_at(&self, id: SnakeID) -> Result<Snake, ResolveError>;

    fn get_snake(&self, id: SnakeID) -> (r: Result<Snake, ResolveError>)
        ensures
            r == self.snake_at(id),
    ;
}

/// Data-access capability: resolve a slug by its own identity.
pub trait SlugRepository: Sized {
    /// The outcome this repository gives for each slug identity.
    spec fn slug_at(&self, id: SlugID) -> Result<Slug, ResolveError>;

    fn get_slug(&self, id: SlugID) -> (r: Result<Slug, ResolveError>)
        ensures
            r == self.slug_at(id),
    ;
}

/// Data-access capability: resolve a frog by its own identity.
pub trait FrogRepository: Sized {
    /// The outcome this repository gives for each frog identity.
    spec fn frog_at(&self, id: FrogID) -> Result<Frog, ResolveError>;

    fn get_frog(&self, id: FrogID) -> (r: Result<Frog, ResolveError>)
        ensures
            r == self.frog_at(id),
    ;
}

/// The one-hop outcome "the slug eating the snake named `snake_id`":
/// first the snake is resolved, then the slug it is eaten by.  The first
/// failure is the outcome of the whole hop.
pub open spec fn slug_eating_snake_outcome<SR: SnakeRepository, LR: SlugRepository>(
    snakes: SR,
    slugs: LR,
    snake_id: SnakeID,
) -> Result<Slug, ResolveError> {
    match snakes.snake_at(snake_id) {
        Ok(snake) => slugs.slug_at(snake.eaten_by),
        Err(e) => Err(e),
    }
}

/// The one-hop outcome "the frog eating the slug named `slug_id`".
pub open spec fn frog_eating_slug_outcome<LR: SlugRepository, FR: FrogRepository>(
    slugs: LR,
    frogs: FR,
    slug_id: SlugID,
) -> Result<Frog, ResolveError> {
    match slugs.slug_at(slug_id) {
        Ok(slug) => frogs.frog_at(slug.eaten_by),
        Err(e) => Err(e),
    }
}

/// The one-hop outcome "the snake eating the frog named `frog_id`".
pub open spec fn snake_eating_frog_outcome<FR: FrogRepository, SR: SnakeRepository>(
    frogs: FR,
    snakes: SR,
    frog_id: FrogID,
) -> Result<Snake, ResolveError> {
    match frogs.frog_at(frog_id) {
        Ok(frog) => snakes.snake_at(frog.eaten_by),
        Err(e) => Err(e),
    }
}

/// The canonical two-hop outcome "the snake eating the frog eating the
/// slug named `slug_id`" as a function of the three lookup tables alone:
/// the frog eating the slug is resolved first, then the snake eating that
/// frog's own identity.  Every wiring strategy's composition layer reduces
/// to this function of its repositories.
pub open spec fn snake_two_hops_from_slug<
    SR: SnakeRepository,
    LR: SlugRepository,
    FR: FrogRepository,
>(snakes: SR, slugs: LR, frogs: FR, slug_id: SlugID) -> Result<Snake, ResolveError> {
    match frog_eating_slug_outcome(slugs, frogs, slug_id) {
        Ok(frog) => snake_eating_frog_outcome(frogs, snakes, frog.id),
        Err(e) => Err(e),
    }
}

/// The canonical two-hop outcome "the slug eating the snake eating the
/// frog named `frog_id`" as a function of the three lookup tables alone.
pub open spec fn slug_two_hops_from_frog<
    SR: SnakeRepository,
    LR: SlugRepository,
    FR: FrogRepository,
>(snakes: SR, slugs: LR, frogs: FR, frog_id: FrogID) -> Result<Slug, ResolveError> {
    match snake_eating_frog_outcome(frogs, snakes, frog_id) {
        Ok(snake) => slug_eating_snake_outcome(snakes, slugs, snake.id),
        Err(e) => Err(e),
    }
}

/// The canonical two-hop outcome "the frog eating the slug eating the
/// snake named `snake_id`" as a function of the three lookup tables alone.
pub open spec fn frog_two_hops_from_snake<
    SR: SnakeRepository,
    LR: SlugRepository,
    FR: FrogRepository,
>(snakes: SR, slugs: LR, frogs: FR, snake_id: SnakeID) -> Result<Frog, ResolveError> {
    match slug_eating_snake_outcome(snakes, slugs, snake_id) {
        Ok(slug) => frog_eating_slug_outcome(slugs, frogs, slug.id),
        Err(e) => Err(e),
    }
}

/// Orchestration capability for snakes: a direct lookup and the one-hop
/// relational lookup "the snake eating a given frog".
pub trait SnakeUseCase: Sized {
    /// The outcome of the direct lookup.
    spec fn snake_at(&self, id: SnakeID) -> Result<Snake, ResolveError>;

    /// The outcome of the one-hop lookup.
    spec fn snake_eating_frog_at(&self, frog_id: FrogID) -> Result<Snake, ResolveError>;

    fn get_snake(&self, id: SnakeID) -> (r: Result<Snake, ResolveError>)
        ensures
            r == self.snake_at(id),
    ;

    fn get_snake_eating_frog(&self, frog_id: FrogID) -> (r: Result<Snake, ResolveError>)
        ensures
            r == self.snake_eating_frog_at(frog_id),
    ;
}

/// Orchestration capability for slugs.
pub trait SlugUseCase: Sized {
    /// The outcome of the direct lookup.
    spec fn slug_at(&self, id: SlugID) -> Result<Slug, ResolveError>;

    /// The outcome of the one-hop lookup.
    spec fn slug_eating_snake_at(&self, snake_id: SnakeID) -> Result<Slug, ResolveError>;

    fn get_slug(&self, id: SlugID) -> (r: Result<Slug, ResolveError>)
        ensures
            r == self.slug_at(id),
    ;

    fn get_slug_eating_snake(&self, snake_id: SnakeID) -> (r: Result<Slug, ResolveError>)
        ensures
            r == self.slug_eating_snake_at(snake_id),
    ;
}

/// Orchestration capability for frogs.
pub trait FrogUseCase: Sized {
    /// The outcome of the direct lookup.
    spec fn frog_at(&self, id: FrogID) -> Result<Frog, ResolveError>;

    /// The outcome of the one-hop lookup.
    spec fn frog_eating_slug_at(&self, slug_id: SlugID) -> Result<Frog, ResolveError>;

    fn get_frog(&self, id: FrogID) -> (r: Result<Frog, ResolveError>)
        ensures
            r == self.frog_at(id),
    ;

    fn get_frog_eating_slug(&self, slug_id: SlugID) -> (r: Result<Frog, ResolveError>)
        ensures
            r == self.frog_eating_slug_at(slug_id),
    ;
}

/// The two-hop outcome "the snake eating the frog eating the slug named
/// `slug_id`", chained from two one-hop orchestration outcomes: the middle
/// frog is resolved first, then the snake eating that frog's own identity.
pub open spec fn snake_eating_frog_eating_slug_outcome<SU: SnakeUseCase, FU: FrogUseCase>(
    snake_use_case: SU,
    frog_use_case: FU,
    slug_id: SlugID,
) -> Result<Snake, ResolveError> {
    match frog_use_case.frog_eating_slug_at(slug_id) {
        Ok(frog) => snake_use_case.snake_eating_frog_at(frog.id),
        Err(e) => Err(e),
    }
}

/// The two-hop outcome "the slug eating the snake eating the frog named
/// `frog_id`".
pub open spec fn slug_eating_snake_eating_frog_outcome<LU: SlugUseCase, SU: SnakeUseCase>(
    slug_use_case: LU,
    snake_use_case: SU,
    frog_id: FrogID,
) -> Result<Slug, ResolveError> {
    match snake_use_case.snake_eating_frog_at(frog_id) {
        Ok(snake) => slug_use_case.slug_eating_snake_at(snake.id),
        Err(e) => Err(e),
    }
}

/// The two-hop outcome "the frog eating the slug eating the snake named
/// `snake_id`".
pub open spec fn frog_eating_slug_eating_snake_outcome<FU: FrogUseCase, LU: SlugUseCase>(
    frog_use_case: FU,
    slug_use_case: LU,
    snake_id: SnakeID,
) -> Result<Frog, ResolveError> {
    match slug_use_case.slug_eating_snake_at(snake_id) {
        Ok(slug) => frog_use_case.frog_eating_slug_at(slug.id),
        Err(e) => Err(e),
    }
}

/// Composition capability for snakes: the two-hop relational lookup.
pub trait SnakeService: Sized {
    /// The outcome of the two-hop lookup.
    spec fn snake_eating_frog_eating_slug_at(&self, slug_id: SlugID) -> Result<
        Snake,
        ResolveError,
    >;

    fn get_snake_eating_frog_eating_slug(&self, slug_id: SlugID) -> (r: Result<
        Snake,
        ResolveError,
    >)
        ensures
            r == self.snake_eating_frog_eating_slug_at(slug_id),
    ;
}

/// Composition capability for slugs.
pub trait SlugService: Sized {
    /// The outcome of the two-hop lookup.
    spec fn slug_eating_snake_eating_frog_at(&self, frog_id: FrogID) -> Result<
        Slug,
        ResolveError,
    >;

    fn get_slug_eating_snake_eating_frog(&self, frog_id: FrogID) -> (r: Result<
        Slug,
        ResolveError,
    >)
        ensures
            r == self.slug_eating_snake_eating_frog_at(frog_id),
    ;
}

/// Composition capability for frogs.
pub trait FrogService: Sized {
    /// The outcome of the two-hop lookup.
    spec fn frog_eating_slug_eating_snake_at(&self, snake_id: SnakeID) -> Result<
        Frog,
        ResolveError,
    >;

    fn get_frog_eating_slug_eating_snake(&self, snake_id: SnakeID) -> (r: Result<
        Frog,
        ResolveError,
    >)
        ensures
            r == self.frog_eating_slug_eating_snake_at(snake_id),
    ;
}

/// The entry point's aggregate outcome over its three independent queries:
/// the triple of all three resolved entities, or the first error in query
/// order, with no partial result.
pub open spec fn entry_outcome(
    snake_query: Result<Snake, ResolveError>,
    slug_query: Result<Slug, ResolveError>,
    frog_query: Result<Frog, ResolveError>,
) -> Result<(Snake, Slug, Frog), ResolveError> {
    match snake_query {
        Ok(snake) => match slug_query {
            Ok(slug) => match frog_query {
                Ok(frog) => Ok((snake, slug, frog)),
                Err(e) => Err(e),
            },
            Err(e) => Err(e),
        },
        Err(e) => Err(e),
    }
}

} // verus!
