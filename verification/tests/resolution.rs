//! Scenario tests for the resolution protocol: cycle closure, hop
//! correctness, fail-fast propagation, query independence and the
//! equivalence of the three wiring strategies.

use food_chain::cake_pattern::ServiceProvider;
use food_chain::cake_pattern::UseCaseProvider;
use food_chain::database::Database;
use food_chain::database::DatabaseConnection;
use food_chain::domain::Frog;
use food_chain::domain::FrogID;
use food_chain::domain::FrogService;
use food_chain::domain::FrogUseCase;
use food_chain::domain::ResolveError;
use food_chain::domain::Slug;
use food_chain::domain::SlugID;
use food_chain::domain::SlugService;
use food_chain::domain::SlugUseCase;
use food_chain::domain::Snake;
use food_chain::domain::SnakeID;
use food_chain::domain::SnakeService;
use food_chain::domain::SnakeUseCase;
use food_chain::doubles::StubFrogRepository;
use food_chain::doubles::StubFrogService;
use food_chain::doubles::StubRepositorySet;
use food_chain::doubles::StubServiceSet;
use food_chain::doubles::StubSlugRepository;
use food_chain::doubles::StubSlugService;
use food_chain::doubles::StubSnakeRepository;
use food_chain::doubles::StubSnakeService;
use food_chain::message_queue::MessageQueue;
use food_chain::message_queue::MessageQueueConnection;

/// One closed cycle: snake 1 is eaten by slug 2, slug 2 by frog 3, and
/// frog 3 again by snake 1.
fn chain() -> StubRepositorySet {
    StubRepositorySet {
        snakes: StubSnakeRepository {
            record: Snake { id: SnakeID(1), eaten_by: SlugID(2) },
            error: None,
        },
        slugs: StubSlugRepository {
            record: Slug { id: SlugID(2), eaten_by: FrogID(3) },
            error: None,
        },
        frogs: StubFrogRepository {
            record: Frog { id: FrogID(3), eaten_by: SnakeID(1) },
            error: None,
        },
    }
}

#[test]
fn cycle_closure_three_hops_return_to_start() {
    let use_case = food_chain::trait_bound::UseCase::new(chain());
    let slug = use_case.get_slug_eating_snake(SnakeID(1)).unwrap();
    let frog = use_case.get_frog_eating_slug(slug.id).unwrap();
    let snake = use_case.get_snake_eating_frog(frog.id).unwrap();
    assert_eq!(snake.id, SnakeID(1));
    assert_eq!(snake, Snake { id: SnakeID(1), eaten_by: SlugID(2) });
}

#[test]
fn cycle_closure_largest_identities() {
    let repository = StubRepositorySet {
        snakes: StubSnakeRepository {
            record: Snake { id: SnakeID(u64::MAX), eaten_by: SlugID(u64::MAX - 1) },
            error: None,
        },
        slugs: StubSlugRepository {
            record: Slug { id: SlugID(u64::MAX - 1), eaten_by: FrogID(u64::MAX - 2) },
            error: None,
        },
        frogs: StubFrogRepository {
            record: Frog { id: FrogID(u64::MAX - 2), eaten_by: SnakeID(u64::MAX) },
            error: None,
        },
    };
    let use_case = food_chain::trait_bound::UseCase::new(repository);
    let slug = use_case.get_slug_eating_snake(SnakeID(u64::MAX)).unwrap();
    let frog = use_case.get_frog_eating_slug(slug.id).unwrap();
    let snake = use_case.get_snake_eating_frog(frog.id).unwrap();
    assert_eq!(snake.id, SnakeID(u64::MAX));
}

#[test]
fn one_hop_equals_direct_lookup() {
    let use_case = food_chain::trait_bound::UseCase::new(chain());
    // The slug with identity 2 is eaten by frog 3: the one-hop lookup must
    // agree with the direct lookup of identity 3.
    assert_eq!(
        use_case.get_frog_eating_slug(SlugID(2)),
        use_case.get_frog(FrogID(3))
    );
    assert_eq!(
        use_case.get_slug_eating_snake(SnakeID(1)),
        use_case.get_slug(SlugID(2))
    );
    assert_eq!(
        use_case.get_snake_eating_frog(FrogID(3)),
        use_case.get_snake(SnakeID(1))
    );
}

#[test]
fn two_hops_reach_the_entity_two_edges_away() {
    let service = food_chain::trait_bound::Service::new(
        food_chain::trait_bound::UseCase::new(chain()),
    );
    assert_eq!(
        service.get_snake_eating_frog_eating_slug(SlugID(2)),
        Ok(Snake { id: SnakeID(1), eaten_by: SlugID(2) })
    );
    assert_eq!(
        service.get_slug_eating_snake_eating_frog(FrogID(3)),
        Ok(Slug { id: SlugID(2), eaten_by: FrogID(3) })
    );
    assert_eq!(
        service.get_frog_eating_slug_eating_snake(SnakeID(1)),
        Ok(Frog { id: FrogID(3), eaten_by: SnakeID(1) })
    );
}

#[test]
fn fail_fast_first_lookup_error_is_the_outcome() {
    // The slug table is unreachable; the frog table holds a record that a
    // stray second lookup would find.  The one-hop outcome must be the
    // first failure, untouched.
    let mut repository = chain();
    repository.slugs.error = Some(ResolveError::Unavailable);
    let use_case = food_chain::trait_bound::UseCase::new(repository);
    assert_eq!(
        use_case.get_frog_eating_slug(SlugID(2)),
        Err(ResolveError::Unavailable)
    );
}

#[test]
fn fail_fast_second_lookup_error_propagates() {
    // The slug is found but the frog it references is missing from the
    // frog table: the second lookup's error is the outcome, with no
    // partial result.
    let mut repository = chain();
    repository.frogs.record.id = FrogID(9);
    let use_case = food_chain::trait_bound::UseCase::new(repository);
    assert_eq!(
        use_case.get_frog_eating_slug(SlugID(2)),
        Err(ResolveError::NotFound)
    );
}

#[test]
fn fail_fast_two_hop_first_hop_error_is_the_outcome() {
    let mut repository = chain();
    repository.slugs.error = Some(ResolveError::Invalid);
    let service = food_chain::trait_bound::Service::new(
        food_chain::trait_bound::UseCase::new(repository),
    );
    assert_eq!(
        service.get_snake_eating_frog_eating_slug(SlugID(2)),
        Err(ResolveError::Invalid)
    );
}

#[test]
fn independent_queries_one_failure_leaves_the_others() {
    let provider = StubServiceSet {
        snakes: StubSnakeService { record: Snake::default(), error: None },
        slugs: StubSlugService { record: Slug::default(), error: Some(ResolveError::Invalid) },
        frogs: StubFrogService { record: Frog::default(), error: None },
    };
    // Each query is answered by its own service alone: the failing slug
    // query does not disturb the snake and frog queries ...
    assert_eq!(
        provider.snakes.get_snake_eating_frog_eating_slug(SlugID::default()),
        Ok(Snake::default())
    );
    assert_eq!(
        provider.slugs.get_slug_eating_snake_eating_frog(FrogID::default()),
        Err(ResolveError::Invalid)
    );
    assert_eq!(
        provider.frogs.get_frog_eating_slug_eating_snake(SnakeID::default()),
        Ok(Frog::default())
    );
    // ... while the aggregate entry point fails with exactly that error
    // and yields no partial result.
    let handler = food_chain::trait_bound::Handler::new(provider);
    assert_eq!(handler.run(), Err(ResolveError::Invalid));
}

#[test]
fn strategy_equivalence_identical_results_from_identical_data() {
    let repository = chain();

    // Freshly-constructed-per-call wiring.
    let cake_use_case = food_chain::cake_pattern::UseCaseProviderImpl::new(&repository);
    let cake_service = food_chain::cake_pattern::ServiceProviderImpl::new(&cake_use_case);
    let cake_handler = food_chain::cake_pattern::Handler::new(&cake_service);

    // Self-as-all-roles wiring.
    let had_use_case = food_chain::has_all_dependency::UseCsae::new(&repository);
    let had_service = food_chain::has_all_dependency::Service::new(&had_use_case);
    let had_handler = food_chain::has_all_dependency::Handler::new(&had_service);

    // Generic-over-capability-set wiring.
    let tb_use_case = food_chain::trait_bound::UseCase::new(repository);
    let tb_service = food_chain::trait_bound::Service::new(tb_use_case);

    for probe in [0u64, 1, 2, 3, 4] {
        let cake = cake_service.snake_service().get_snake_eating_frog_eating_slug(
            SlugID(probe),
        );
        let had = had_service.get_snake_eating_frog_eating_slug(SlugID(probe));
        let tb = tb_service.get_snake_eating_frog_eating_slug(SlugID(probe));
        assert_eq!(cake, had);
        assert_eq!(had, tb);

        let cake = cake_service.slug_service().get_slug_eating_snake_eating_frog(
            FrogID(probe),
        );
        let had = had_service.get_slug_eating_snake_eating_frog(FrogID(probe));
        let tb = tb_service.get_slug_eating_snake_eating_frog(FrogID(probe));
        assert_eq!(cake, had);
        assert_eq!(had, tb);

        let cake = cake_service.frog_service().get_frog_eating_slug_eating_snake(
            SnakeID(probe),
        );
        let had = had_service.get_frog_eating_slug_eating_snake(SnakeID(probe));
        let tb = tb_service.get_frog_eating_slug_eating_snake(SnakeID(probe));
        assert_eq!(cake, had);
        assert_eq!(had, tb);

        let cake = cake_use_case.snake_use_case().get_snake(SnakeID(probe));
        let had = had_use_case.get_snake(SnakeID(probe));
        let tb = tb_service.use_case.get_snake(SnakeID(probe));
        assert_eq!(cake, had);
        assert_eq!(had, tb);

        let cake = cake_use_case.frog_use_case().get_frog_eating_slug(SlugID(probe));
        let had = had_use_case.get_frog_eating_slug(SlugID(probe));
        let tb = tb_service.use_case.get_frog_eating_slug(SlugID(probe));
        assert_eq!(cake, had);
        assert_eq!(had, tb);
    }

    // The aggregate entry points agree as well.
    let tb_handler = food_chain::trait_bound::Handler::new(tb_service);
    assert_eq!(cake_handler.run(), had_handler.run());
    assert_eq!(had_handler.run(), tb_handler.run());
}

#[test]
fn entry_point_over_the_reference_data_source() {
    let database = Database::new(DatabaseConnection {});
    let message_queue = MessageQueue::new(MessageQueueConnection {});

    // Every reference lookup succeeds, so the three two-hop queries from
    // the zero identities all land on the zero entities.
    let expected = Ok((
        Snake { id: SnakeID(0), eaten_by: SlugID(0) },
        Slug { id: SlugID(0), eaten_by: FrogID(0) },
        Frog { id: FrogID(0), eaten_by: SnakeID(0) },
    ));

    let repository = food_chain::cake_pattern::RepositoryProviderImpl::new(
        &database,
        &message_queue,
    );
    let use_case = food_chain::cake_pattern::UseCaseProviderImpl::new(&repository);
    let service = food_chain::cake_pattern::ServiceProviderImpl::new(&use_case);
    assert_eq!(food_chain::cake_pattern::Handler::new(&service).run(), expected);

    let repository = food_chain::has_all_dependency::Repository::new(&database, &message_queue);
    let use_case = food_chain::has_all_dependency::UseCsae::new(&repository);
    let service = food_chain::has_all_dependency::Service::new(&use_case);
    assert_eq!(food_chain::has_all_dependency::Handler::new(&service).run(), expected);

    let repository = food_chain::trait_bound::Repository::new(database, message_queue);
    let use_case = food_chain::trait_bound::UseCase::new(repository);
    let service = food_chain::trait_bound::Service::new(use_case);
    assert_eq!(food_chain::trait_bound::Handler::new(service).run(), expected);
}
