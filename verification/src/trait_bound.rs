//! Generic-over-capability-set wiring: each layer is generic over any one
//! type satisfying the union of capabilities it needs, with no provider
//! indirection at all.

use vstd::prelude::*;

use crate::database::Database;
use crate::domain::FrogID;
use crate::domain::FrogRepository;
use crate::domain::FrogService;
use crate::domain::FrogUseCase;
use crate::domain::Frog;
use crate::domain::ResolveError;
use crate::domain::SlugID;
use crate::domain::SlugRepository;
use crate::domain::SlugService;
use crate::domain::SlugUseCase;
use crate::domain::Slug;
use crate::domain::SnakeID;
use crate::domain::SnakeRepository;
use crate::domain::SnakeService;
use crate::domain::SnakeUseCase;
use crate::domain::Snake;
use crate::domain::entry_outcome;
use crate::domain::frog_eating_slug_eating_snake_outcome;
use crate::domain::frog_eating_slug_outcome;
use crate::domain::slug_eating_snake_eating_frog_outcome;
use crate::domain::slug_eating_snake_outcome;
use crate::domain::snake_eating_frog_eating_slug_outcome;
use crate::domain::snake_eating_frog_outcome;
use crate::message_queue::MessageQueue;

verus! {

/// The concrete data-access layer: one object owning both collaborator
/// handles and playing every repository role itself.
pub struct Repository {
    database: Database,
    message_queue: MessageQueue,
}

impl Repository {
    pub fn new(database: Database, message_queue: MessageQueue) -> Self {
        Self { database, message_queue }
    }
}

impl SnakeRepository for Repository {
    /// The reference data source resolves every identity: the snake named
    /// `id`, eaten by the zero slug.
    open spec fn snake_at(&self, id: SnakeID) -> Result<Snake, ResolveError> {
        Ok(Snake { id, eaten_by: SlugID(0) })
    }

    fn get_snake(&self, id: SnakeID) -> (r: Result<Snake, ResolveError>) {
        let _ = self.database.conn();
        let _ = self.message_queue.conn();
        Ok(Snake { id, eaten_by: SlugID::default() })
    }
}

impl SlugRepository for Repository {
    /// The reference data source resolves every identity: the slug named
    /// `id`, eaten by the zero frog.
    open spec fn slug_at(&self, id: SlugID) -> Result<Slug, ResolveError> {
        Ok(Slug { id, eaten_by: FrogID(0) })
    }

    fn get_slug(&self, id: SlugID) -> (r: Result<Slug, ResolveError>) {
        let _ = self.database.conn();
        let _ = self.message_queue.conn();
        Ok(Slug { id, eaten_by: FrogID::default() })
    }
}

impl FrogRepository for Repository {
    /// The reference data source resolves every identity: the frog named
    /// `id`, eaten by the zero snake.
    open spec fn frog_at(&self, id: FrogID) -> Result<Frog, ResolveError> {
        Ok(Frog { id, eaten_by: SnakeID(0) })
    }

    fn get_frog(&self, id: FrogID) -> (r: Result<Frog, ResolveError>) {
        let _ = self.database.conn();
        let _ = self.message_queue.conn();
        Ok(Frog { id, eaten_by: SnakeID::default() })
    }
}

/// Orchestration layer over any single repository object that offers the
/// capabilities the role at hand requires.
pub struct UseCase<T> {
    pub repository: T,
}

impl<T> UseCase<T> {
    pub fn new(repository: T) -> (r: Self)
        ensures
            r.repository == repository,
    {
        Self { repository }
    }
}

impl<T: SnakeRepository + FrogRepository> SnakeUseCase for UseCase<T> {
    open spec fn snake_at(&self, id: SnakeID) -> Result<Snake, ResolveError> {
        self.repository.snake_at(id)
    }

    open spec fn snake_eating_frog_at(&self, frog_id: FrogID) -> Result<Snake, ResolveError> {
        snake_eating_frog_outcome(self.repository, self.repository, frog_id)
    }

    fn get_snake(&self, id: SnakeID) -> (r: Result<Snake, ResolveError>) {
        self.repository.get_snake(id)
    }

    fn get_snake_eating_frog(&self, frog_id: FrogID) -> (r: Result<Snake, ResolveError>) {
        let frog = self.repository.get_frog(frog_id)?;
        self.repository.get_snake(frog.eaten_by)
    }
}

impl<T: SlugRepository + SnakeRepository> SlugUseCase for UseCase<T> {
    open spec fn slug_at(&self, id: SlugID) -> Result<Slug, ResolveError> {
        self.repository.slug_at(id)
    }

    open spec fn slug_eating_snake_at(&self, snake_id: SnakeID) -> Result<Slug, ResolveError> {
        slug_eating_snake_outcome(self.repository, self.repository, snake_id)
    }

    fn get_slug(&self, id: SlugID) -> (r: Result<Slug, ResolveError>) {
        self.repository.get_slug(id)
    }

    fn get_slug_eating_snake(&self, snake_id: SnakeID) -> (r: Result<Slug, ResolveError>) {
        let snake = self.repository.get_snake(snake_id)?;
        self.repository.get_slug(snake.eaten_by)
    }
}

impl<T: FrogRepository + SlugRepository> FrogUseCase for UseCase<T> {
    open spec fn frog_at(&self, id: FrogID) -> Result<Frog, ResolveError> {
        self.repository.frog_at(id)
    }

    open spec fn frog_eating_slug_at(&self, slug_id: SlugID) -> Result<Frog, ResolveError> {
        frog_eating_slug_outcome(self.repository, self.repository, slug_id)
    }

    fn get_frog(&self, id: FrogID) -> (r: Result<Frog, ResolveError>) {
        self.repository.get_frog(id)
    }

    fn get_frog_eating_slug(&self, slug_id: SlugID) -> (r: Result<Frog, ResolveError>) {
        let slug = self.repository.get_slug(slug_id)?;
        self.repository.get_frog(slug.eaten_by)
    }
}

/// Composition layer over any single orchestration object offering the
/// capabilities the role at hand requires.
pub struct Service<T> {
    pub use_case: T,
}

impl<T> Service<T> {
    pub fn new(use_case: T) -> (r: Self)
        ensures
            r.use_case == use_case,
    {
        Self { use_case }
    }
}

impl<T: SnakeUseCase + FrogUseCase> SnakeService for Service<T> {
    open spec fn snake_eating_frog_eating_slug_at(&self, slug_id: SlugID) -> Result<
        Snake,
        ResolveError,
    > {
        snake_eating_frog_eating_slug_outcome(self.use_case, self.use_case, slug_id)
    }

    fn get_snake_eating_frog_eating_slug(&self, slug_id: SlugID) -> (r: Result<
        Snake,
        ResolveError,
    >) {
        let frog = self.use_case.get_frog_eating_slug(slug_id)?;
        self.use_case.get_snake_eating_frog(frog.id)
    }
}

impl<T: SlugUseCase + SnakeUseCase> SlugService for Service<T> {
    open spec fn slug_eating_snake_eating_frog_at(&self, frog_id: FrogID) -> Result<
        Slug,
        ResolveError,
    > {
        slug_eating_snake_eating_frog_outcome(self.use_case, self.use_case, frog_id)
    }

    fn get_slug_eating_snake_eating_frog(&self, frog_id: FrogID) -> (r: Result<
        Slug,
        ResolveError,
    >) {
        let snake = self.use_case.get_snake_eating_frog(frog_id)?;
        self.use_case.get_slug_eating_snake(snake.id)
    }
}

impl<T: FrogUseCase + SlugUseCase> FrogService for Service<T> {
    open spec fn frog_eating_slug_eating_snake_at(&self, snake_id: SnakeID) -> Result<
        Frog,
        ResolveError,
    > {
        frog_eating_slug_eating_snake_outcome(self.use_case, self.use_case, snake_id)
    }

    fn get_frog_eating_slug_eating_snake(&self, snake_id: SnakeID) -> (r: Result<
        Frog,
        ResolveError,
    >) {
        let slug = self.use_case.get_slug_eating_snake(snake_id)?;
        self.use_case.get_frog_eating_slug(slug.id)
    }
}

/// The entry point over one object carrying all three composition
/// capabilities.
pub struct Handler<T: SnakeService + SlugService + FrogService> {
    pub service: T,
}

impl<T: SnakeService + SlugService + FrogService> Handler<T> {
    pub fn new(service: T) -> (r: Self)
        ensures
            r.service == service,
    {
        Self { service }
    }

    /// Issues the three symmetric two-hop queries from the zero identities
    /// and collects the results, failing on the first error encountered
    /// with no partial result.
    pub fn run(&self) -> (r: Result<(Snake, Slug, Frog), ResolveError>)
        ensures
            r == entry_outcome(
                self.service.snake_eating_frog_eating_slug_at(SlugID(0)),
                self.service.slug_eating_snake_eating_frog_at(FrogID(0)),
                self.service.frog_eating_slug_eating_snake_at(SnakeID(0)),
            ),
    {
        let snake = self.service.get_snake_eating_frog_eating_slug(SlugID::default())?;
        let slug = self.service.get_slug_eating_snake_eating_frog(FrogID::default())?;
        let frog = self.service.get_frog_eating_slug_eating_snake(SnakeID::default())?;
        Ok((snake, slug, frog))
    }
}

} // verus!
