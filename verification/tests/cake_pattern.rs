//! The freshly-constructed-per-call wiring, each layer exercised in
//! isolation with substitute dependencies.

use food_chain::cake_pattern::FrogServiceImpl;
use food_chain::cake_pattern::FrogUseCaseImpl;
use food_chain::cake_pattern::Handler;
use food_chain::cake_pattern::SlugServiceImpl;
use food_chain::cake_pattern::SlugUseCaseImpl;
use food_chain::cake_pattern::SnakeServiceImpl;
use food_chain::cake_pattern::SnakeUseCaseImpl;
use food_chain::domain::Frog;
use food_chain::domain::FrogID;
use food_chain::domain::FrogService;
use food_chain::domain::FrogUseCase;
use food_chain::domain::Slug;
use food_chain::domain::SlugID;
use food_chain::domain::SlugService;
use food_chain::domain::SlugUseCase;
use food_chain::domain::Snake;
use food_chain::domain::SnakeID;
use food_chain::domain::SnakeService;
use food_chain::domain::SnakeUseCase;
use food_chain::doubles::StubFrogRepository;
use food_chain::doubles::StubFrogService;
use food_chain::doubles::StubFrogUseCase;
use food_chain::doubles::StubServiceSet;
use food_chain::doubles::StubSlugRepository;
use food_chain::doubles::StubSlugService;
use food_chain::doubles::StubSlugUseCase;
use food_chain::doubles::StubSnakeRepository;
use food_chain::doubles::StubSnakeService;
use food_chain::doubles::StubSnakeUseCase;

fn snake_stub() -> StubSnakeRepository {
    StubSnakeRepository { record: Snake::default(), error: None }
}

fn slug_stub() -> StubSlugRepository {
    StubSlugRepository { record: Slug::default(), error: None }
}

fn frog_stub() -> StubFrogRepository {
    StubFrogRepository { record: Frog::default(), error: None }
}

#[test]
fn cake_pattern_test_get_snake() {
    let snake_use_case = SnakeUseCaseImpl {
        snake_repository: snake_stub(),
        frog_repository: frog_stub(),
    };
    assert_eq!(snake_use_case.get_snake(SnakeID::default()), Ok(Snake::default()));
}

#[test]
fn cake_pattern_test_get_snake_eating_frog() {
    let snake_use_case = SnakeUseCaseImpl {
        snake_repository: snake_stub(),
        frog_repository: frog_stub(),
    };
    assert_eq!(snake_use_case.get_snake_eating_frog(FrogID::default()), Ok(Snake::default()));
}

#[test]
fn cake_pattern_test_get_slug() {
    let slug_use_case = SlugUseCaseImpl {
        slug_repository: slug_stub(),
        snake_repository: snake_stub(),
    };
    assert_eq!(slug_use_case.get_slug(SlugID::default()), Ok(Slug::default()));
}

#[test]
fn cake_pattern_test_get_slug_eating_snake() {
    let slug_use_case = SlugUseCaseImpl {
        slug_repository: slug_stub(),
        snake_repository: snake_stub(),
    };
    assert_eq!(slug_use_case.get_slug_eating_snake(SnakeID::default()), Ok(Slug::default()));
}

#[test]
fn cake_pattern_test_get_frog() {
    let frog_use_case = FrogUseCaseImpl {
        frog_repository: frog_stub(),
        slug_repository: slug_stub(),
    };
    assert_eq!(frog_use_case.get_frog(FrogID::default()), Ok(Frog::default()));
}

#[test]
fn cake_pattern_test_get_frog_eating_slug() {
    let frog_use_case = FrogUseCaseImpl {
        frog_repository: frog_stub(),
        slug_repository: slug_stub(),
    };
    assert_eq!(frog_use_case.get_frog_eating_slug(SlugID::default()), Ok(Frog::default()));
}

#[test]
fn cake_pattern_test_get_snake_eating_frog_eating_slug() {
    let service = SnakeServiceImpl {
        snake_use_case: StubSnakeUseCase { record: Snake::default(), error: None },
        frog_use_case: StubFrogUseCase { record: Frog::default(), error: None },
    };
    assert_eq!(
        service.get_snake_eating_frog_eating_slug(SlugID::default()),
        Ok(Snake::default())
    );
}

#[test]
fn cake_pattern_test_get_slug_eating_snake_eating_frog() {
    let service = SlugServiceImpl {
        slug_use_case: StubSlugUseCase { record: Slug::default(), error: None },
        snake_use_case: StubSnakeUseCase { record: Snake::default(), error: None },
    };
    assert_eq!(
        service.get_slug_eating_snake_eating_frog(FrogID::default()),
        Ok(Slug::default())
    );
}

#[test]
fn cake_pattern_test_get_frog_eating_slug_eating_snake() {
    let service = FrogServiceImpl {
        frog_use_case: StubFrogUseCase { record: Frog::default(), error: None },
        slug_use_case: StubSlugUseCase { record: Slug::default(), error: None },
    };
    assert_eq!(
        service.get_frog_eating_slug_eating_snake(SnakeID::default()),
        Ok(Frog::default())
    );
}

#[test]
fn cake_pattern_test_handler_run() {
    let provider = StubServiceSet {
        snakes: StubSnakeService { record: Snake::default(), error: None },
        slugs: StubSlugService { record: Slug::default(), error: None },
        frogs: StubFrogService { record: Frog::default(), error: None },
    };
    let handler = Handler::new(&provider);
    assert_eq!(
        handler.run(),
        Ok((Snake::default(), Slug::default(), Frog::default()))
    );
}
