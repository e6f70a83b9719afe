//! The generic-over-capability-set wiring, each layer exercised in
//! isolation with substitute dependencies.

use food_chain::domain::Frog;
use food_chain::domain::FrogID;
use food_chain::domain::FrogService;
use food_chain::domain::FrogUseCase;
use food_chain::domain::Slug;
use food_chain::domain::SlugID;
use food_chain::domain::SlugService;
use food_chain::domain::SlugUseCase;
use food_chain::domain::Snake;
use food_chain::domain::SnakeID;
use food_chain::domain::SnakeService;
use food_chain::domain::SnakeUseCase;
use food_chain::doubles::StubFrogRepository;
use food_chain::doubles::StubFrogService;
use food_chain::doubles::StubFrogUseCase;
use food_chain::doubles::StubRepositorySet;
use food_chain::doubles::StubServiceSet;
use food_chain::doubles::StubSlugRepository;
use food_chain::doubles::StubSlugService;
use food_chain::doubles::StubSlugUseCase;
use food_chain::doubles::StubSnakeRepository;
use food_chain::doubles::StubSnakeService;
use food_chain::doubles::StubSnakeUseCase;
use food_chain::doubles::StubUseCaseSet;
use food_chain::trait_bound::Handler;
use food_chain::trait_bound::Service;
use food_chain::trait_bound::UseCase;

fn repository_stub() -> StubRepositorySet {
    StubRepositorySet {
        snakes: StubSnakeRepository { record: Snake::default(), error: None },
        slugs: StubSlugRepository { record: Slug::default(), error: None },
        frogs: StubFrogRepository { record: Frog::default(), error: None },
    }
}

fn use_case_stub() -> StubUseCaseSet {
    StubUseCaseSet {
        snakes: StubSnakeUseCase { record: Snake::default(), error: None },
        slugs: StubSlugUseCase { record: Slug::default(), error: None },
        frogs: StubFrogUseCase { record: Frog::default(), error: None },
    }
}

#[test]
fn trait_bound_test_get_snake() {
    let use_case = UseCase::new(repository_stub());
    assert_eq!(use_case.get_snake(SnakeID::default()), Ok(Snake::default()));
}

#[test]
fn trait_bound_test_get_snake_eating_frog() {
    let use_case = UseCase::new(repository_stub());
    assert_eq!(use_case.get_snake_eating_frog(FrogID::default()), Ok(Snake::default()));
}

#[test]
fn trait_bound_test_get_slug() {
    let use_case = UseCase::new(repository_stub());
    assert_eq!(use_case.get_slug(SlugID::default()), Ok(Slug::default()));
}

#[test]
fn trait_bound_test_get_slug_eating_snake() {
    let use_case = UseCase::new(repository_stub());
    assert_eq!(use_case.get_slug_eating_snake(SnakeID::default()), Ok(Slug::default()));
}

#[test]
fn trait_bound_test_get_frog() {
    let use_case = UseCase::new(repository_stub());
    assert_eq!(use_case.get_frog(FrogID::default()), Ok(Frog::default()));
}

#[test]
fn trait_bound_test_get_frog_eating_slug() {
    let use_case = UseCase::new(repository_stub());
    assert_eq!(use_case.get_frog_eating_slug(SlugID::default()), Ok(Frog::default()));
}

#[test]
fn trait_bound_test_get_snake_eating_frog_eating_slug() {
    let service = Service::new(use_case_stub());
    assert_eq!(
        service.get_snake_eating_frog_eating_slug(SlugID::default()),
        Ok(Snake::default())
    );
}

#[test]
fn trait_bound_test_get_slug_eating_snake_eating_frog() {
    let service = Service::new(use_case_stub());
    assert_eq!(
        service.get_slug_eating_snake_eating_frog(FrogID::default()),
        Ok(Slug::default())
    );
}

#[test]
fn trait_bound_test_get_frog_eating_slug_eating_snake() {
    let service = Service::new(use_case_stub());
    assert_eq!(
        service.get_frog_eating_slug_eating_snake(SnakeID::default()),
        Ok(Frog::default())
    );
}

#[test]
fn trait_bound_test_run() {
    let service = StubServiceSet {
        snakes: StubSnakeService { record: Snake::default(), error: None },
        slugs: StubSlugService { record: Slug::default(), error: None },
        frogs: StubFrogService { record: Frog::default(), error: None },
    };
    let handler = Handler::new(service);
    assert_eq!(
        handler.run(),
        Ok((Snake::default(), Slug::default(), Frog::default()))
    );
}
