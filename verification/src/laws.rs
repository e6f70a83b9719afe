//! The library-wide laws of the resolution protocol, proved once and for
//! all over arbitrary repositories, use cases and services.

use vstd::prelude::*;

use crate::domain::FrogID;
use crate::domain::FrogRepository;
use crate::domain::FrogUseCase;
use crate::domain::Frog;
use crate::domain::ResolveError;
use crate::domain::SlugID;
use crate::domain::SlugRepository;
use crate::domain::SlugUseCase;
use crate::domain::Slug;
use crate::domain::SnakeID;
use crate::domain::SnakeRepository;
use crate::domain::SnakeUseCase;
use crate::domain::Snake;
use crate::domain::entry_outcome;
use crate::domain::frog_eating_slug_eating_snake_outcome;
use crate::domain::frog_eating_slug_outcome;
use crate::domain::frog_two_hops_from_snake;
use crate::domain::slug_eating_snake_eating_frog_outcome;
use crate::domain::slug_eating_snake_outcome;
use crate::domain::slug_two_hops_from_frog;
use crate::domain::snake_eating_frog_eating_slug_outcome;
use crate::domain::snake_eating_frog_outcome;
use crate::domain::snake_two_hops_from_slug;

verus! {

/// Cycle closure: under backing data in which the three records form one
/// closed cycle — the snake is eaten by the slug, the slug by the frog,
/// and the frog again by the snake — following the "eaten by" edge three
/// times from any of the three identities comes back to an entity of the
/// starting type whose identity equals the starting identity.  The three
/// one-hop equations below chain into that round trip from every starting
/// point: each hop's argument is the identity of the entity the previous
/// hop resolved.
pub proof fn lemma_cycle_closure<SR: SnakeRepository, LR: SlugRepository, FR: FrogRepository>(
    snakes: SR,
    slugs: LR,
    frogs: FR,
    snake: Snake,
    slug: Slug,
    frog: Frog,
)
    requires
        snakes.snake_at(snake.id) == Ok::<Snake, ResolveError>(snake),
        slugs.slug_at(slug.id) == Ok::<Slug, ResolveError>(slug),
        frogs.frog_at(frog.id) == Ok::<Frog, ResolveError>(frog),
        snake.eaten_by == slug.id,
        slug.eaten_by == frog.id,
        frog.eaten_by == snake.id,
    ensures
        slug_eating_snake_outcome(snakes, slugs, snake.id) == Ok::<Slug, ResolveError>(slug),
        frog_eating_slug_outcome(slugs, frogs, slug.id) == Ok::<Frog, ResolveError>(frog),
        snake_eating_frog_outcome(frogs, snakes, frog.id) == Ok::<Snake, ResolveError>(snake),
{
}

/// One-hop correctness: when the starting slug is found, the one-hop
/// lookup "the frog eating this slug" returns exactly what the direct
/// frog lookup of the slug's `eaten_by` identity returns.
pub proof fn lemma_one_hop_frog_eating_slug<LR: SlugRepository, FR: FrogRepository>(
    slugs: LR,
    frogs: FR,
    slug: Slug,
)
    requires
        slugs.slug_at(slug.id) == Ok::<Slug, ResolveError>(slug),
    ensures
        frog_eating_slug_outcome(slugs, frogs, slug.id) == frogs.frog_at(slug.eaten_by),
{
}

/// One-hop correctness for the slug-eating-snake rotation.
pub proof fn lemma_one_hop_slug_eating_snake<SR: SnakeRepository, LR: SlugRepository>(
    snakes: SR,
    slugs: LR,
    snake: Snake,
)
    requires
        snakes.snake_at(snake.id) == Ok::<Snake, ResolveError>(snake),
    ensures
        slug_eating_snake_outcome(snakes, slugs, snake.id) == slugs.slug_at(snake.eaten_by),
{
}

/// One-hop correctness for the snake-eating-frog rotation.
pub proof fn lemma_one_hop_snake_eating_frog<FR: FrogRepository, SR: SnakeRepository>(
    frogs: FR,
    snakes: SR,
    frog: Frog,
)
    requires
        frogs.frog_at(frog.id) == Ok::<Frog, ResolveError>(frog),
    ensures
        snake_eating_frog_outcome(frogs, snakes, frog.id) == snakes.snake_at(frog.eaten_by),
{
}

/// Two-hop correctness: under the same closed-cycle backing data as
/// `lemma_cycle_closure`, the two-hop lookup starting from any of the
/// three identities reproduces the entity two hops away along the cycle.
pub proof fn lemma_two_hop_correctness<SR: SnakeRepository, LR: SlugRepository, FR: FrogRepository>(
    snakes: SR,
    slugs: LR,
    frogs: FR,
    snake: Snake,
    slug: Slug,
    frog: Frog,
)
    requires
        snakes.snake_at(snake.id) == Ok::<Snake, ResolveError>(snake),
        slugs.slug_at(slug.id) == Ok::<Slug, ResolveError>(slug),
        frogs.frog_at(frog.id) == Ok::<Frog, ResolveError>(frog),
        snake.eaten_by == slug.id,
        slug.eaten_by == frog.id,
        frog.eaten_by == snake.id,
    ensures
        snake_two_hops_from_slug(snakes, slugs, frogs, slug.id) == Ok::<Snake, ResolveError>(
            snake,
        ),
        slug_two_hops_from_frog(snakes, slugs, frogs, frog.id) == Ok::<Slug, ResolveError>(slug),
        frog_two_hops_from_snake(snakes, slugs, frogs, snake.id) == Ok::<Frog, ResolveError>(
            frog,
        ),
{
}

/// Fail-fast, one-hop, frog-eating-slug rotation: when the first lookup of
/// the hop fails, the hop's outcome is exactly that error, whatever frog
/// repository stands second — the second lookup cannot influence the
/// result, so it need never be issued.
pub proof fn lemma_fail_fast_frog_eating_slug<
    LR: SlugRepository,
    FR: FrogRepository,
    OtherFR: FrogRepository,
>(slugs: LR, frogs: FR, other_frogs: OtherFR, slug_id: SlugID, e: ResolveError)
    requires
        slugs.slug_at(slug_id) == Err::<Slug, ResolveError>(e),
    ensures
        frog_eating_slug_outcome(slugs, frogs, slug_id) == Err::<Frog, ResolveError>(e),
        frog_eating_slug_outcome(slugs, frogs, slug_id) == frog_eating_slug_outcome(
            slugs,
            other_frogs,
            slug_id,
        ),
{
}

/// Fail-fast, one-hop, slug-eating-snake rotation.
pub proof fn lemma_fail_fast_slug_eating_snake<
    SR: SnakeRepository,
    LR: SlugRepository,
    OtherLR: SlugRepository,
>(snakes: SR, slugs: LR, other_slugs: OtherLR, snake_id: SnakeID, e: ResolveError)
    requires
        snakes.snake_at(snake_id) == Err::<Snake, ResolveError>(e),
    ensures
        slug_eating_snake_outcome(snakes, slugs, snake_id) == Err::<Slug, ResolveError>(e),
        slug_eating_snake_outcome(snakes, slugs, snake_id) == slug_eating_snake_outcome(
            snakes,
            other_slugs,
            snake_id,
        ),
{
}

/// Fail-fast, one-hop, snake-eating-frog rotation.
pub proof fn lemma_fail_fast_snake_eating_frog<
    FR: FrogRepository,
    SR: SnakeRepository,
    OtherSR: SnakeRepository,
>(frogs: FR, snakes: SR, other_snakes: OtherSR, frog_id: FrogID, e: ResolveError)
    requires
        frogs.frog_at(frog_id) == Err::<Frog, ResolveError>(e),
    ensures
        snake_eating_frog_outcome(frogs, snakes, frog_id) == Err::<Snake, ResolveError>(e),
        snake_eating_frog_outcome(frogs, snakes, frog_id) == snake_eating_frog_outcome(
            frogs,
            other_snakes,
            frog_id,
        ),
{
}

/// Fail-fast, two-hop, snake query: when the first chained one-hop lookup
/// fails, the composed outcome is exactly that error, whatever snake use
/// case stands second.
pub proof fn lemma_fail_fast_snake_two_hop<
    FU: FrogUseCase,
    SU: SnakeUseCase,
    OtherSU: SnakeUseCase,
>(frog_use_case: FU, snake_use_case: SU, other: OtherSU, slug_id: SlugID, e: ResolveError)
    requires
        frog_use_case.frog_eating_slug_at(slug_id) == Err::<Frog, ResolveError>(e),
    ensures
        snake_eating_frog_eating_slug_outcome(snake_use_case, frog_use_case, slug_id)
            == Err::<Snake, ResolveError>(e),
        snake_eating_frog_eating_slug_outcome(snake_use_case, frog_use_case, slug_id)
            == snake_eating_frog_eating_slug_outcome(other, frog_use_case, slug_id),
{
}

/// Fail-fast, two-hop, slug query.
pub proof fn lemma_fail_fast_slug_two_hop<
    SU: SnakeUseCase,
    LU: SlugUseCase,
    OtherLU: SlugUseCase,
>(snake_use_case: SU, slug_use_case: LU, other: OtherLU, frog_id: FrogID, e: ResolveError)
    requires
        snake_use_case.snake_eating_frog_at(frog_id) == Err::<Snake, ResolveError>(e),
    ensures
        slug_eating_snake_eating_frog_outcome(slug_use_case, snake_use_case, frog_id)
            == Err::<Slug, ResolveError>(e),
        slug_eating_snake_eating_frog_outcome(slug_use_case, snake_use_case, frog_id)
            == slug_eating_snake_eating_frog_outcome(other, snake_use_case, frog_id),
{
}

/// Fail-fast, two-hop, frog query.
pub proof fn lemma_fail_fast_frog_two_hop<
    LU: SlugUseCase,
    FU: FrogUseCase,
    OtherFU: FrogUseCase,
>(slug_use_case: LU, frog_use_case: FU, other: OtherFU, snake_id: SnakeID, e: ResolveError)
    requires
        slug_use_case.slug_eating_snake_at(snake_id) == Err::<Slug, ResolveError>(e),
    ensures
        frog_eating_slug_eating_snake_outcome(frog_use_case, slug_use_case, snake_id)
            == Err::<Frog, ResolveError>(e),
        frog_eating_slug_eating_snake_outcome(frog_use_case, slug_use_case, snake_id)
            == frog_eating_slug_eating_snake_outcome(other, slug_use_case, snake_id),
{
}

/// Independent top-level queries: each entry-point query's outcome is
/// fixed by its own service alone — the aggregate takes the three
/// outcomes as separate arguments and cannot mix them — and it succeeds
/// exactly when all three queries succeed.  When exactly one query fails,
/// the aggregate outcome is that query's error unchanged, while the other
/// two queries' outcomes keep their successful values untouched.
pub proof fn lemma_independent_queries(
    snake_query: Result<Snake, ResolveError>,
    slug_query: Result<Slug, ResolveError>,
    frog_query: Result<Frog, ResolveError>,
    e: ResolveError,
)
    ensures
        (snake_query is Ok && slug_query is Ok && frog_query is Ok) ==> entry_outcome(
            snake_query,
            slug_query,
            frog_query,
        ) == Ok::<(Snake, Slug, Frog), ResolveError>(
            (snake_query->Ok_0, slug_query->Ok_0, frog_query->Ok_0),
        ),
        (snake_query == Err::<Snake, ResolveError>(e) && slug_query is Ok && frog_query is Ok)
            ==> entry_outcome(snake_query, slug_query, frog_query) == Err::<
            (Snake, Slug, Frog),
            ResolveError,
        >(e),
        (snake_query is Ok && slug_query == Err::<Slug, ResolveError>(e) && frog_query is Ok)
            ==> entry_outcome(snake_query, slug_query, frog_query) == Err::<
            (Snake, Slug, Frog),
            ResolveError,
        >(e),
        (snake_query is Ok && slug_query is Ok && frog_query == Err::<Frog, ResolveError>(e))
            ==> entry_outcome(snake_query, slug_query, frog_query) == Err::<
            (Snake, Slug, Frog),
            ResolveError,
        >(e),
{
}

/// The two-hop outcomes are functions of the three lookup tables alone:
/// two repository sets that answer every direct lookup identically give
/// identical two-hop results from every starting identity.  Together with
/// the three strategy lemmas below, this is the provider-strategy
/// equivalence: wiring has no behavioural effect.
pub proof fn lemma_two_hops_determined_by_tables<
    SR1: SnakeRepository,
    LR1: SlugRepository,
    FR1: FrogRepository,
    SR2: SnakeRepository,
    LR2: SlugRepository,
    FR2: FrogRepository,
>(snakes1: SR1, slugs1: LR1, frogs1: FR1, snakes2: SR2, slugs2: LR2, frogs2: FR2)
    requires
        forall|id: SnakeID| snakes1.snake_at(id) == snakes2.snake_at(id),
        forall|id: SlugID| slugs1.slug_at(id) == slugs2.slug_at(id),
        forall|id: FrogID| frogs1.frog_at(id) == frogs2.frog_at(id),
    ensures
        forall|id: SlugID| #[trigger] snake_two_hops_from_slug(snakes1, slugs1, frogs1, id)
            == snake_two_hops_from_slug(snakes2, slugs2, frogs2, id),
        forall|id: FrogID| #[trigger] slug_two_hops_from_frog(snakes1, slugs1, frogs1, id)
            == slug_two_hops_from_frog(snakes2, slugs2, frogs2, id),
        forall|id: SnakeID| #[trigger] frog_two_hops_from_snake(snakes1, slugs1, frogs1, id)
            == frog_two_hops_from_snake(snakes2, slugs2, frogs2, id),
{
}

/// The generic-over-capability-set strategy computes the canonical
/// two-hop outcomes of the one repository object it is wired over: its
/// composition layer's contract is, for every starting identity, the
/// matching ensures clause below with this orchestration object in both
/// roles.
pub proof fn lemma_trait_bound_strategy<
    T: SnakeRepository + SlugRepository + FrogRepository,
>(use_case: crate::trait_bound::UseCase<T>)
    ensures
        forall|id: SlugID| #[trigger] snake_eating_frog_eating_slug_outcome(
            use_case,
            use_case,
            id,
        ) == snake_two_hops_from_slug(
            use_case.repository,
            use_case.repository,
            use_case.repository,
            id,
        ),
        forall|id: FrogID| #[trigger] slug_eating_snake_eating_frog_outcome(
            use_case,
            use_case,
            id,
        ) == slug_two_hops_from_frog(
            use_case.repository,
            use_case.repository,
            use_case.repository,
            id,
        ),
        forall|id: SnakeID| #[trigger] frog_eating_slug_eating_snake_outcome(
            use_case,
            use_case,
            id,
        ) == frog_two_hops_from_snake(
            use_case.repository,
            use_case.repository,
            use_case.repository,
            id,
        ),
{
}

/// The self-as-all-roles strategy computes the canonical two-hop outcomes
/// of the three repositories its provider lent out: its composition
/// layer's contract is, for every starting identity, the matching ensures
/// clause below with this orchestration object in both roles.
pub proof fn lemma_has_all_dependency_strategy<
    'r,
    RP: crate::has_all_dependency::RepositoryProvider,
>(use_case: crate::has_all_dependency::UseCsae<'r, RP>)
    ensures
        forall|id: SlugID| #[trigger] snake_eating_frog_eating_slug_outcome(
            use_case,
            use_case,
            id,
        ) == snake_two_hops_from_slug(
            *use_case.snake_repository,
            *use_case.slug_repository,
            *use_case.frog_repository,
            id,
        ),
        forall|id: FrogID| #[trigger] slug_eating_snake_eating_frog_outcome(
            use_case,
            use_case,
            id,
        ) == slug_two_hops_from_frog(
            *use_case.snake_repository,
            *use_case.slug_repository,
            *use_case.frog_repository,
            id,
        ),
        forall|id: SnakeID| #[trigger] frog_eating_slug_eating_snake_outcome(
            use_case,
            use_case,
            id,
        ) == frog_two_hops_from_snake(
            *use_case.snake_repository,
            *use_case.slug_repository,
            *use_case.frog_repository,
            id,
        ),
{
}

/// The freshly-constructed-per-call strategy computes the canonical
/// two-hop outcomes of the repositories behind its three orchestration
/// handles, provided the handles share their repositories pairwise the
/// way one provider yields them.  Each composition handle's contract is,
/// for every starting identity, the matching ensures clause below over
/// the pair of orchestration handles it holds.
pub proof fn lemma_cake_pattern_strategy<
    SR: SnakeRepository,
    LR: SlugRepository,
    FR: FrogRepository,
>(
    snake_use_case: crate::cake_pattern::SnakeUseCaseImpl<SR, FR>,
    slug_use_case: crate::cake_pattern::SlugUseCaseImpl<LR, SR>,
    frog_use_case: crate::cake_pattern::FrogUseCaseImpl<FR, LR>,
)
    requires
        snake_use_case.frog_repository == frog_use_case.frog_repository,
        slug_use_case.snake_repository == snake_use_case.snake_repository,
        frog_use_case.slug_repository == slug_use_case.slug_repository,
    ensures
        forall|id: SlugID| #[trigger] snake_eating_frog_eating_slug_outcome(
            snake_use_case,
            frog_use_case,
            id,
        ) == snake_two_hops_from_slug(
            snake_use_case.snake_repository,
            slug_use_case.slug_repository,
            frog_use_case.frog_repository,
            id,
        ),
        forall|id: FrogID| #[trigger] slug_eating_snake_eating_frog_outcome(
            slug_use_case,
            snake_use_case,
            id,
        ) == slug_two_hops_from_frog(
            snake_use_case.snake_repository,
            slug_use_case.slug_repository,
            frog_use_case.frog_repository,
            id,
        ),
        forall|id: SnakeID| #[trigger] frog_eating_slug_eating_snake_outcome(
            frog_use_case,
            slug_use_case,
            id,
        ) == frog_two_hops_from_snake(
            snake_use_case.snake_repository,
            slug_use_case.slug_repository,
            frog_use_case.frog_repository,
            id,
        ),
{
}

} // verus!

