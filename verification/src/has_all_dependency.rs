//! Self-as-all-roles wiring: each layer is a single composed object that
//! implements all three entity-specific capabilities itself and hands out
//! references to itself through its provider trait.

use vstd::prelude::*;

use crate::database::Database;
use crate::domain::FrogID;
use crate::domain::FrogRepository;
use crate::domain::FrogService;
use crate::domain::FrogUseCase;
use crate::domain::Frog;
use crate::domain::ResolveError;
use crate::domain::SlugID;
use crate::domain::SlugRepository;
use crate::domain::SlugService;
use crate::domain::SlugUseCase;
use crate::domain::Slug;
use crate::domain::SnakeID;
use crate::domain::SnakeRepository;
use crate::domain::SnakeService;
use crate::domain::SnakeUseCase;
use crate::domain::Snake;
use crate::domain::entry_outcome;
use crate::domain::frog_eating_slug_eating_snake_outcome;
use crate::domain::frog_eating_slug_outcome;
use crate::domain::slug_eating_snake_eating_frog_outcome;
use crate::domain::slug_eating_snake_outcome;
use crate::domain::snake_eating_frog_eating_slug_outcome;
use crate::domain::snake_eating_frog_outcome;
use crate::message_queue::MessageQueue;

verus! {

/// Provider of the three data-access capabilities, lending each out by
/// reference for the provider's own lifetime.
pub trait RepositoryProvider: Sized {
    type SnakeRepository: SnakeRepository;

    type SlugRepository: SlugRepository;

    type FrogRepository: FrogRepository;

    /// The snake repository every `snake_repository` call lends out.
    spec fn snake_repository_spec(&self) -> Self::SnakeRepository;

    /// The slug repository every `slug_repository` call lends out.
    spec fn slug_repository_spec(&self) -> Self::SlugRepository;

    /// The frog repository every `frog_repository` call lends out.
    spec fn frog_repository_spec(&self) -> Self::FrogRepository;

    fn snake_repository(&self) -> (r: &Self::SnakeRepository)
        ensures
            *r == self.snake_repository_spec(),
    ;

    fn slug_repository(&self) -> (r: &Self::SlugRepository)
        ensures
            *r == self.slug_repository_spec(),
    ;

    fn frog_repository(&self) -> (r: &Self::FrogRepository)
        ensures
            *r == self.frog_repository_spec(),
    ;
}

/// Provider of the three orchestration capabilities.
pub trait UseCaseProvider: Sized {
    type SnakeUseCase: SnakeUseCase;

    type SlugUseCase: SlugUseCase;

    type FrogUseCase: FrogUseCase;

    /// The snake use case every `snake_use_case` call lends out.
    spec fn snake_use_case_spec(&self) -> Self::SnakeUseCase;

    /// The slug use case every `slug_use_case` call lends out.
    spec fn slug_use_case_spec(&self) -> Self::SlugUseCase;

    /// The frog use case every `frog_use_case` call lends out.
    spec fn frog_use_case_spec(&self) -> Self::FrogUseCase;

    fn snake_use_case(&self) -> (r: &Self::SnakeUseCase)
        ensures
            *r == self.snake_use_case_spec(),
    ;

    fn slug_use_case(&self) -> (r: &Self::SlugUseCase)
        ensures
            *r == self.slug_use_case_spec(),
    ;

    fn frog_use_case(&self) -> (r: &Self::FrogUseCase)
        ensures
            *r == self.frog_use_case_spec(),
    ;
}

/// Provider of the three composition capabilities.
pub trait ServiceProvider: Sized {
    type SnakeService: SnakeService;

    type SlugService: SlugService;

    type FrogService: FrogService;

    /// The snake service every `snake_service` call lends out.
    spec fn snake_service_spec(&self) -> Self::SnakeService;

    /// The slug service every `slug_service` call lends out.
    spec fn slug_service_spec(&self) -> Self::SlugService;

    /// The frog service every `frog_service` call lends out.
    spec fn frog_service_spec(&self) -> Self::FrogService;

    fn snake_service(&self) -> (r: &Self::SnakeService)
        ensures
            *r == self.snake_service_spec(),
    ;

    fn slug_service(&self) -> (r: &Self::SlugService)
        ensures
            *r == self.slug_service_spec(),
    ;

    fn frog_service(&self) -> (r: &Self::FrogService)
        ensures
            *r == self.frog_service_spec(),
    ;
}

/// The concrete data-access layer: one object borrowing both collaborator
/// handles and playing every repository role itself.
pub struct Repository<'a> {
    pub database: &'a Database,
    pub message_queue: &'a MessageQueue,
}

impl<'a> Repository<'a> {
    pub fn new(database: &'a Database, message_queue: &'a MessageQueue) -> (r: Self)
        ensures
            r.database == database,
            r.message_queue == message_queue,
    {
        Self { database, message_queue }
    }
}

impl<'a> RepositoryProvider for Repository<'a> {
    type SnakeRepository = Self;

    type SlugRepository = Self;

    type FrogRepository = Self;

    open spec fn snake_repository_spec(&self) -> Self::SnakeRepository {
        *self
    }

    open spec fn slug_repository_spec(&self) -> Self::SlugRepository {
        *self
    }

    open spec fn frog_repository_spec(&self) -> Self::FrogRepository {
        *self
    }

    fn snake_repository(&self) -> (r: &Self::SnakeRepository) {
        self
    }

    fn slug_repository(&self) -> (r: &Self::SlugRepository) {
        self
    }

    fn frog_repository(&self) -> (r: &Self::FrogRepository) {
        self
    }
}

impl<'a> SnakeRepository for Repository<'a> {
    /// The reference data source resolves every identity: the snake named
    /// `id`, eaten by the zero slug.
    open spec fn snake_at(&self, id: SnakeID) -> Result<Snake, ResolveError> {
        Ok(Snake { id, eaten_by: SlugID(0) })
    }

    fn get_snake(&self, id: SnakeID) -> (r: Result<Snake, ResolveError>) {
        let _ = self.database.conn();
        let _ = self.message_queue.conn();
        Ok(Snake { id, eaten_by: SlugID::default() })
    }
}

impl<'a> SlugRepository for Repository<'a> {
    /// The reference data source resolves every identity: the slug named
    /// `id`, eaten by the zero frog.
    open spec fn slug_at(&self, id: SlugID) -> Result<Slug, ResolveError> {
        Ok(Slug { id, eaten_by: FrogID(0) })
    }

    fn get_slug(&self, id: SlugID) -> (r: Result<Slug, ResolveError>) {
        let _ = self.database.conn();
        let _ = self.message_queue.conn();
        Ok(Slug { id, eaten_by: FrogID::default() })
    }
}

impl<'a> FrogRepository for Repository<'a> {
    /// The reference data source resolves every identity: the frog named
    /// `id`, eaten by the zero snake.
    open spec fn frog_at(&self, id: FrogID) -> Result<Frog, ResolveError> {
        Ok(Frog { id, eaten_by: SnakeID(0) })
    }

    fn get_frog(&self, id: FrogID) -> (r: Result<Frog, ResolveError>) {
        let _ = self.database.conn();
        let _ = self.message_queue.conn();
        Ok(Frog { id, eaten_by: SnakeID::default() })
    }
}

/// The orchestration layer: one object holding the three data-access
/// handles its provider lent out, playing every use-case role itself.
pub struct UseCsae<'r, RP: RepositoryProvider> {
    pub snake_repository: &'r RP::SnakeRepository,
    pub slug_repository: &'r RP::SlugRepository,
    pub frog_repository: &'r RP::FrogRepository,
}

impl<'r, RP: RepositoryProvider> UseCsae<'r, RP> {
    pub fn new(repository: &'r RP) -> (r: Self)
        ensures
            *r.snake_repository == repository.snake_repository_spec(),
            *r.slug_repository == repository.slug_repository_spec(),
            *r.frog_repository == repository.frog_repository_spec(),
    {
        Self {
            snake_repository: repository.snake_repository(),
            slug_repository: repository.slug_repository(),
            frog_repository: repository.frog_repository(),
        }
    }
}

impl<'r, RP: RepositoryProvider> UseCaseProvider for UseCsae<'r, RP> {
    type SnakeUseCase = Self;

    type SlugUseCase = Self;

    type FrogUseCase = Self;

    open spec fn snake_use_case_spec(&self) -> Self::SnakeUseCase {
        *self
    }

    open spec fn slug_use_case_spec(&self) -> Self::SlugUseCase {
        *self
    }

    open spec fn frog_use_case_spec(&self) -> Self::FrogUseCase {
        *self
    }

    fn snake_use_case(&self) -> (r: &Self::SnakeUseCase) {
        self
    }

    fn slug_use_case(&self) -> (r: &Self::SlugUseCase) {
        self
    }

    fn frog_use_case(&self) -> (r: &Self::FrogUseCase) {
        self
    }
}

impl<'r, RP: RepositoryProvider> SnakeUseCase for UseCsae<'r, RP> {
    open spec fn snake_at(&self, id: SnakeID) -> Result<Snake, ResolveError> {
        self.snake_repository.snake_at(id)
    }

    open spec fn snake_eating_frog_at(&self, frog_id: FrogID) -> Result<Snake, ResolveError> {
        snake_eating_frog_outcome(*self.frog_repository, *self.snake_repository, frog_id)
    }

    fn get_snake(&self, id: SnakeID) -> (r: Result<Snake, ResolveError>) {
        self.snake_repository.get_snake(id)
    }

    fn get_snake_eating_frog(&self, frog_id: FrogID) -> (r: Result<Snake, ResolveError>) {
        let frog = self.frog_repository.get_frog(frog_id)?;
        self.snake_repository.get_snake(frog.eaten_by)
    }
}

impl<'r, RP: RepositoryProvider> SlugUseCase for UseCsae<'r, RP> {
    open spec fn slug_at(&self, id: SlugID) -> Result<Slug, ResolveError> {
        self.slug_repository.slug_at(id)
    }

    open spec fn slug_eating_snake_at(&self, snake_id: SnakeID) -> Result<Slug, ResolveError> {
        slug_eating_snake_outcome(*self.snake_repository, *self.slug_repository, snake_id)
    }

    fn get_slug(&self, id: SlugID) -> (r: Result<Slug, ResolveError>) {
        self.slug_repository.get_slug(id)
    }

    fn get_slug_eating_snake(&self, snake_id: SnakeID) -> (r: Result<Slug, ResolveError>) {
        let snake = self.snake_repository.get_snake(snake_id)?;
        self.slug_repository.get_slug(snake.eaten_by)
    }
}

impl<'r, RP: RepositoryProvider> FrogUseCase for UseCsae<'r, RP> {
    open spec fn frog_at(&self, id: FrogID) -> Result<Frog, ResolveError> {
        self.frog_repository.frog_at(id)
    }

    open spec fn frog_eating_slug_at(&self, slug_id: SlugID) -> Result<Frog, ResolveError> {
        frog_eating_slug_outcome(*self.slug_repository, *self.frog_repository, slug_id)
    }

    fn get_frog(&self, id: FrogID) -> (r: Result<Frog, ResolveError>) {
        self.frog_repository.get_frog(id)
    }

    fn get_frog_eating_slug(&self, slug_id: SlugID) -> (r: Result<Frog, ResolveError>) {
        let slug = self.slug_repository.get_slug(slug_id)?;
        self.frog_repository.get_frog(slug.eaten_by)
    }
}

/// The composition layer: one object holding the three orchestration
/// handles its provider lent out, playing every service role itself.
pub struct Service<'ucp, UCP: UseCaseProvider> {
    pub snake_use_case: &'ucp UCP::SnakeUseCase,
    pub slug_use_case: &'ucp UCP::SlugUseCase,
    pub frog_use_case: &'ucp UCP::FrogUseCase,
}

impl<'ucp, UCP: UseCaseProvider> Service<'ucp, UCP> {
    pub fn new(use_case: &'ucp UCP) -> (r: Self)
        ensures
            *r.snake_use_case == use_case.snake_use_case_spec(),
            *r.slug_use_case == use_case.slug_use_case_spec(),
            *r.frog_use_case == use_case.frog_use_case_spec(),
    {
        Self {
            snake_use_case: use_case.snake_use_case(),
            slug_use_case: use_case.slug_use_case(),
            frog_use_case: use_case.frog_use_case(),
        }
    }
}

impl<'ucp, UCP: UseCaseProvider> ServiceProvider for Service<'ucp, UCP> {
    type SnakeService = Self;

    type SlugService = Self;

    type FrogService = Self;

    open spec fn snake_service_spec(&self) -> Self::SnakeService {
        *self
    }

    open spec fn slug_service_spec(&self) -> Self::SlugService {
        *self
    }

    open spec fn frog_service_spec(&self) -> Self::FrogService {
        *self
    }

    fn snake_service(&self) -> (r: &Self::SnakeService) {
        self
    }

    fn slug_service(&self) -> (r: &Self::SlugService) {
        self
    }

    fn frog_service(&self) -> (r: &Self::FrogService) {
        self
    }
}

impl<'ucp, UCP: UseCaseProvider> SnakeService for Service<'ucp, UCP> {
    open spec fn snake_eating_frog_eating_slug_at(&self, slug_id: SlugID) -> Result<
        Snake,
        ResolveError,
    > {
        snake_eating_frog_eating_slug_outcome(
            *self.snake_use_case,
            *self.frog_use_case,
            slug_id,
        )
    }

    fn get_snake_eating_frog_eating_slug(&self, slug_id: SlugID) -> (r: Result<
        Snake,
        ResolveError,
    >) {
        let frog = self.frog_use_case.get_frog_eating_slug(slug_id)?;
        self.snake_use_case.get_snake_eating_frog(frog.id)
    }
}

impl<'ucp, UCP: UseCaseProvider> SlugService for Service<'ucp, UCP> {
    open spec fn slug_eating_snake_eating_frog_at(&self, frog_id: FrogID) -> Result<
        Slug,
        ResolveError,
    > {
        slug_eating_snake_eating_frog_outcome(*self.slug_use_case, *self.snake_use_case, frog_id)
    }

    fn get_slug_eating_snake_eating_frog(&self, frog_id: FrogID) -> (r: Result<
        Slug,
        ResolveError,
    >) {
        let snake = self.snake_use_case.get_snake_eating_frog(frog_id)?;
        self.slug_use_case.get_slug_eating_snake(snake.id)
    }
}

impl<'ucp, UCP: UseCaseProvider> FrogService for Service<'ucp, UCP> {
    open spec fn frog_eating_slug_eating_snake_at(&self, snake_id: SnakeID) -> Result<
        Frog,
        ResolveError,
    > {
        frog_eating_slug_eating_snake_outcome(*self.frog_use_case, *self.slug_use_case, snake_id)
    }

    fn get_frog_eating_slug_eating_snake(&self, snake_id: SnakeID) -> (r: Result<
        Frog,
        ResolveError,
    >) {
        let slug = self.slug_use_case.get_slug_eating_snake(snake_id)?;
        self.frog_use_case.get_frog_eating_slug(slug.id)
    }
}

/// The entry point: holds the three composition handles its provider lent
/// out and issues the three symmetric two-hop queries.
pub struct Handler<'sp, SP: ServiceProvider> {
    pub snake_service: &'sp SP::SnakeService,
    pub slug_service: &'sp SP::SlugService,
    pub frog_service: &'sp SP::FrogService,
}

impl<'sp, SP: ServiceProvider> Handler<'sp, SP> {
    pub fn new(service: &'sp SP) -> (r: Self)
        ensures
            *r.snake_service == service.snake_service_spec(),
            *r.slug_service == service.slug_service_spec(),
            *r.frog_service == service.frog_service_spec(),
    {
        Self {
            snake_service: service.snake_service(),
            slug_service: service.slug_service(),
            frog_service: service.frog_service(),
        }
    }

    /// Issues the three symmetric two-hop queries from the zero identities
    /// and collects the results, failing on the first error encountered
    /// with no partial result.
    pub fn run(&self) -> (r: Result<(Snake, Slug, Frog), ResolveError>)
        ensures
            r == entry_outcome(
                self.snake_service.snake_eating_frog_eating_slug_at(SlugID(0)),
                self.slug_service.slug_eating_snake_eating_frog_at(FrogID(0)),
                self.frog_service.frog_eating_slug_eating_snake_at(SnakeID(0)),
            ),
    {
        let snake = self.snake_service.get_snake_eating_frog_eating_slug(SlugID::default())?;
        let slug = self.slug_service.get_slug_eating_snake_eating_frog(FrogID::default())?;
        let frog = self.frog_service.get_frog_eating_slug_eating_snake(SnakeID::default())?;
        Ok((snake, slug, frog))
    }
}

} // verus!
