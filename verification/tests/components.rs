//! Tests of the individual components: collaborator handles, identity and
//! entity defaults, the reference repositories and the error taxonomy.

use food_chain::cake_pattern::RepositoryProvider;
use food_chain::database::Database;
use food_chain::database::DatabaseConnection;
use food_chain::domain::Frog;
use food_chain::domain::FrogID;
use food_chain::domain::FrogRepository;
use food_chain::domain::ResolveError;
use food_chain::domain::Slug;
use food_chain::domain::SlugID;
use food_chain::domain::SlugRepository;
use food_chain::domain::Snake;
use food_chain::domain::SnakeID;
use food_chain::domain::SnakeRepository;
use food_chain::doubles::StubSlugRepository;
use food_chain::doubles::StubSnakeRepository;
use food_chain::message_queue::MessageQueue;
use food_chain::message_queue::MessageQueueConnection;

#[test]
fn collaborator_handles_are_held_and_lent_out() {
    let database = Database::new(DatabaseConnection {});
    let message_queue = MessageQueue::new(MessageQueueConnection {});
    let _ = database.conn();
    let _ = message_queue.conn();
}

#[test]
fn identities_default_to_zero() {
    assert_eq!(SnakeID::default(), SnakeID(0));
    assert_eq!(SlugID::default(), SlugID(0));
    assert_eq!(FrogID::default(), FrogID(0));
}

#[test]
fn entities_default_to_zero_identities() {
    assert_eq!(Snake::default(), Snake { id: SnakeID(0), eaten_by: SlugID(0) });
    assert_eq!(Slug::default(), Slug { id: SlugID(0), eaten_by: FrogID(0) });
    assert_eq!(Frog::default(), Frog { id: FrogID(0), eaten_by: SnakeID(0) });
}

#[test]
fn reference_repositories_resolve_every_identity() {
    let database = Database::new(DatabaseConnection {});
    let message_queue = MessageQueue::new(MessageQueueConnection {});
    let repository = food_chain::trait_bound::Repository::new(database, message_queue);
    assert_eq!(
        repository.get_snake(SnakeID(5)),
        Ok(Snake { id: SnakeID(5), eaten_by: SlugID(0) })
    );
    assert_eq!(
        repository.get_slug(SlugID(6)),
        Ok(Slug { id: SlugID(6), eaten_by: FrogID(0) })
    );
    assert_eq!(
        repository.get_frog(FrogID(7)),
        Ok(Frog { id: FrogID(7), eaten_by: SnakeID(0) })
    );
}

#[test]
fn borrowing_repositories_resolve_every_identity() {
    let database = Database::new(DatabaseConnection {});
    let message_queue = MessageQueue::new(MessageQueueConnection {});
    let provider = food_chain::cake_pattern::RepositoryProviderImpl::new(
        &database,
        &message_queue,
    );
    assert_eq!(
        provider.snake_repository().get_snake(SnakeID(8)),
        Ok(Snake { id: SnakeID(8), eaten_by: SlugID(0) })
    );
    let repository = food_chain::has_all_dependency::Repository::new(&database, &message_queue);
    assert_eq!(
        repository.get_frog(FrogID(9)),
        Ok(Frog { id: FrogID(9), eaten_by: SnakeID(0) })
    );
}

#[test]
fn not_found_when_the_identity_is_unknown() {
    let repository = StubSnakeRepository {
        record: Snake { id: SnakeID(1), eaten_by: SlugID(2) },
        error: None,
    };
    assert_eq!(repository.get_snake(SnakeID(1)).unwrap().eaten_by, SlugID(2));
    assert_eq!(repository.get_snake(SnakeID(4)), Err(ResolveError::NotFound));
}

#[test]
fn unavailable_when_the_collaborator_cannot_be_reached() {
    let repository = StubSlugRepository {
        record: Slug { id: SlugID(1), eaten_by: FrogID(2) },
        error: Some(ResolveError::Unavailable),
    };
    assert_eq!(repository.get_slug(SlugID(1)), Err(ResolveError::Unavailable));
}

#[test]
fn invalid_when_the_identity_is_malformed() {
    let repository = food_chain::doubles::StubFrogRepository {
        record: Frog { id: FrogID(1), eaten_by: SnakeID(2) },
        error: Some(ResolveError::Invalid),
    };
    assert_eq!(repository.get_frog(FrogID(1)), Err(ResolveError::Invalid));
}
