//! Freshly-constructed-per-call wiring: each layer consumes a provider
//! whose factory operations build a new lightweight handle per invocation,
//! borrowing the shared underlying resources by reference.

use vstd::prelude::*;

use crate::database::Database;
use crate::domain::FrogID;
use crate::domain::FrogRepository;
use crate::domain::FrogService;
use crate::domain::FrogUseCase;
use crate::domain::Frog;
use crate::domain::ResolveError;
use crate::domain::SlugID;
use crate::domain::SlugRepository;
use crate::domain::SlugService;
use crate::domain::SlugUseCase;
use crate::domain::Slug;
use crate::domain::SnakeID;
use crate::domain::SnakeRepository;
use crate::domain::SnakeService;
use crate::domain::SnakeUseCase;
use crate::domain::Snake;
use crate::domain::entry_outcome;
use crate::domain::frog_eating_slug_eating_snake_outcome;
use crate::domain::frog_eating_slug_outcome;
use crate::domain::slug_eating_snake_eating_frog_outcome;
use crate::domain::slug_eating_snake_outcome;
use crate::domain::snake_eating_frog_eating_slug_outcome;
use crate::domain::snake_eating_frog_outcome;
use crate::message_queue::MessageQueue;

verus! {

/// Factory for the three data-access handles the orchestration layer
/// needs, one fresh handle per call.
pub trait RepositoryProvider: Sized {
    type SnakeRepository: SnakeRepository;

    type SlugRepository: SlugRepository;

    type FrogRepository: FrogRepository;

    /// The snake repository every `snake_repository` call yields.
    spec fn snake_repository_spec(&self) -> Self::SnakeRepository;

    /// The slug repository every `slug_repository` call yields.
    spec fn slug_repository_spec(&self) -> Self::SlugRepository;

    /// The frog repository every `frog_repository` call yields.
    spec fn frog_repository_spec(&self) -> Self::FrogRepository;

    fn snake_repository(&self) -> (r: Self::SnakeRepository)
        ensures
            r == self.snake_repository_spec(),
    ;

    fn slug_repository(&self) -> (r: Self::SlugRepository)
        ensures
            r == self.slug_repository_spec(),
    ;

    fn frog_repository(&self) -> (r: Self::FrogRepository)
        ensures
            r == self.frog_repository_spec(),
    ;
}

/// Factory for the three orchestration handles the composition layer
/// needs.
pub trait UseCaseProvider: Sized {
    type SnakeUseCase: SnakeUseCase;

    type SlugUseCase: SlugUseCase;

    type FrogUseCase: FrogUseCase;

    /// The snake use case every `snake_use_case` call yields.
    spec fn snake_use_case_spec(&self) -> Self::SnakeUseCase;

    /// The slug use case every `slug_use_case` call yields.
    spec fn slug_use_case_spec(&self) -> Self::SlugUseCase;

    /// The frog use case every `frog_use_case` call yields.
    spec fn frog_use_case_spec(&self) -> Self::FrogUseCase;

    fn snake_use_case(&self) -> (r: Self::SnakeUseCase)
        ensures
            r == self.snake_use_case_spec(),
    ;

    fn slug_use_case(&self) -> (r: Self::SlugUseCase)
        ensures
            r == self.slug_use_case_spec(),
    ;

    fn frog_use_case(&self) -> (r: Self::FrogUseCase)
        ensures
            r == self.frog_use_case_spec(),
    ;
}

/// Factory for the three composition handles the entry point needs.
pub trait ServiceProvider: Sized {
    type SnakeService: SnakeService;

    type SlugService: SlugService;

    type FrogService: FrogService;

    /// The snake service every `snake_service` call yields.
    spec fn snake_service_spec(&self) -> Self::SnakeService;

    /// The slug service every `slug_service` call yields.
    spec fn slug_service_spec(&self) -> Self::SlugService;

    /// The frog service every `frog_service` call yields.
    spec fn frog_service_spec(&self) -> Self::FrogService;

    fn snake_service(&self) -> (r: Self::SnakeService)
        ensures
            r == self.snake_service_spec(),
    ;

    fn slug_service(&self) -> (r: Self::SlugService)
        ensures
            r == self.slug_service_spec(),
    ;

    fn frog_service(&self) -> (r: Self::FrogService)
        ensures
            r == self.frog_service_spec(),
    ;
}

/// The concrete data-access provider, borrowing the two collaborator
/// handles for its whole scope.
pub struct RepositoryProviderImpl<'r> {
    pub database: &'r Database,
    pub message_queue: &'r MessageQueue,
}

impl<'r> RepositoryProviderImpl<'r> {
    pub fn new(database: &'r Database, message_queue: &'r MessageQueue) -> (r: Self)
        ensures
            r.database == database,
            r.message_queue == message_queue,
    {
        Self { database, message_queue }
    }
}

impl<'r> RepositoryProvider for RepositoryProviderImpl<'r> {
    type SnakeRepository = SnakeRepositoryImpl<'r>;

    type SlugRepository = SlugRepositoryImpl<'r>;

    type FrogRepository = FrogRepositoryImpl<'r>;

    open spec fn snake_repository_spec(&self) -> Self::SnakeRepository {
        SnakeRepositoryImpl { database: self.database, message_queue: self.message_queue }
    }

    open spec fn slug_repository_spec(&self) -> Self::SlugRepository {
        SlugRepositoryImpl { database: self.database, message_queue: self.message_queue }
    }

    open spec fn frog_repository_spec(&self) -> Self::FrogRepository {
        FrogRepositoryImpl { database: self.database, message_queue: self.message_queue }
    }

    fn snake_repository(&self) -> (r: Self::SnakeRepository) {
        SnakeRepositoryImpl { database: self.database, message_queue: self.message_queue }
    }

    fn slug_repository(&self) -> (r: Self::SlugRepository) {
        SlugRepositoryImpl { database: self.database, message_queue: self.message_queue }
    }

    fn frog_repository(&self) -> (r: Self::FrogRepository) {
        FrogRepositoryImpl { database: self.database, message_queue: self.message_queue }
    }
}

/// Per-call snake data access over the borrowed collaborator handles.
pub struct SnakeRepositoryImpl<'a> {
    pub database: &'a Database,
    pub message_queue: &'a MessageQueue,
}

impl<'a> SnakeRepository for SnakeRepositoryImpl<'a> {
    /// The reference data source resolves every identity: the snake named
    /// `id`, eaten by the zero slug.
    open spec fn snake_at(&self, id: SnakeID) -> Result<Snake, ResolveError> {
        Ok(Snake { id, eaten_by: SlugID(0) })
    }

    fn get_snake(&self, id: SnakeID) -> (r: Result<Snake, ResolveError>) {
        let _ = self.database.conn();
        let _ = self.message_queue.conn();
        Ok(Snake { id, eaten_by: SlugID::default() })
    }
}

/// Per-call slug data access over the borrowed collaborator handles.
pub struct SlugRepositoryImpl<'a> {
    pub database: &'a Database,
    pub message_queue: &'a MessageQueue,
}

impl<'a> SlugRepository for SlugRepositoryImpl<'a> {
    /// The reference data source resolves every identity: the slug named
    /// `id`, eaten by the zero frog.
    open spec fn slug_at(&self, id: SlugID) -> Result<Slug, ResolveError> {
        Ok(Slug { id, eaten_by: FrogID(0) })
    }

    fn get_slug(&self, id: SlugID) -> (r: Result<Slug, ResolveError>) {
        let _ = self.database.conn();
        let _ = self.message_queue.conn();
        Ok(Slug { id, eaten_by: FrogID::default() })
    }
}

/// Per-call frog data access over the borrowed collaborator handles.
pub struct FrogRepositoryImpl<'a> {
    pub database: &'a Database,
    pub message_queue: &'a MessageQueue,
}

impl<'a> FrogRepository for FrogRepositoryImpl<'a> {
    /// The reference data source resolves every identity: the frog named
    /// `id`, eaten by the zero snake.
    open spec fn frog_at(&self, id: FrogID) -> Result<Frog, ResolveError> {
        Ok(Frog { id, eaten_by: SnakeID(0) })
    }

    fn get_frog(&self, id: FrogID) -> (r: Result<Frog, ResolveError>) {
        let _ = self.database.conn();
        let _ = self.message_queue.conn();
        Ok(Frog { id, eaten_by: SnakeID::default() })
    }
}

/// The concrete orchestration provider over any data-access provider.
pub struct UseCaseProviderImpl<'rp, RP: RepositoryProvider> {
    pub repository: &'rp RP,
}

impl<'rp, RP: RepositoryProvider> UseCaseProviderImpl<'rp, RP> {
    pub fn new(repository: &'rp RP) -> (r: Self)
        ensures
            r.repository == repository,
    {
        Self { repository }
    }
}

impl<'rp, RP: RepositoryProvider> UseCaseProvider for UseCaseProviderImpl<'rp, RP> {
    type SnakeUseCase = SnakeUseCaseImpl<RP::SnakeRepository, RP::FrogRepository>;

    type SlugUseCase = SlugUseCaseImpl<RP::SlugRepository, RP::SnakeRepository>;

    type FrogUseCase = FrogUseCaseImpl<RP::FrogRepository, RP::SlugRepository>;

    open spec fn snake_use_case_spec(&self) -> Self::SnakeUseCase {
        SnakeUseCaseImpl {
            snake_repository: self.repository.snake_repository_spec(),
            frog_repository: self.repository.frog_repository_spec(),
        }
    }

    open spec fn slug_use_case_spec(&self) -> Self::SlugUseCase {
        SlugUseCaseImpl {
            slug_repository: self.repository.slug_repository_spec(),
            snake_repository: self.repository.snake_repository_spec(),
        }
    }

    open spec fn frog_use_case_spec(&self) -> Self::FrogUseCase {
        FrogUseCaseImpl {
            frog_repository: self.repository.frog_repository_spec(),
            slug_repository: self.repository.slug_repository_spec(),
        }
    }

    fn snake_use_case(&self) -> (r: Self::SnakeUseCase) {
        SnakeUseCaseImpl {
            snake_repository: self.repository.snake_repository(),
            frog_repository: self.repository.frog_repository(),
        }
    }

    fn slug_use_case(&self) -> (r: Self::SlugUseCase) {
        SlugUseCaseImpl {
            slug_repository: self.repository.slug_repository(),
            snake_repository: self.repository.snake_repository(),
        }
    }

    fn frog_use_case(&self) -> (r: Self::FrogUseCase) {
        FrogUseCaseImpl {
            frog_repository: self.repository.frog_repository(),
            slug_repository: self.repository.slug_repository(),
        }
    }
}

/// Snake orchestration over the snake and frog data-access capabilities.
pub struct SnakeUseCaseImpl<SnakeR: SnakeRepository, FrogR: FrogRepository> {
    pub snake_repository: SnakeR,
    pub frog_repository: FrogR,
}

impl<SnakeR: SnakeRepository, FrogR: FrogRepository> SnakeUseCase
    for SnakeUseCaseImpl<SnakeR, FrogR> {
    open spec fn snake_at(&self, id: SnakeID) -> Result<Snake, ResolveError> {
        self.snake_repository.snake_at(id)
    }

    open spec fn snake_eating_frog_at(&self, frog_id: FrogID) -> Result<Snake, ResolveError> {
        snake_eating_frog_outcome(self.frog_repository, self.snake_repository, frog_id)
    }

    fn get_snake(&self, id: SnakeID) -> (r: Result<Snake, ResolveError>) {
        self.snake_repository.get_snake(id)
    }

    fn get_snake_eating_frog(&self, frog_id: FrogID) -> (r: Result<Snake, ResolveError>) {
        let frog = self.frog_repository.get_frog(frog_id)?;
        self.snake_repository.get_snake(frog.eaten_by)
    }
}

/// Slug orchestration over the slug and snake data-access capabilities.
pub struct SlugUseCaseImpl<SlugR: SlugRepository, SnakeR: SnakeRepository> {
    pub slug_repository: SlugR,
    pub snake_repository: SnakeR,
}

impl<SlugR: SlugRepository, SnakeR: SnakeRepository> SlugUseCase
    for SlugUseCaseImpl<SlugR, SnakeR> {
    open spec fn slug_at(&self, id: SlugID) -> Result<Slug, ResolveError> {
        self.slug_repository.slug_at(id)
    }

    open spec fn slug_eating_snake_at(&self, snake_id: SnakeID) -> Result<Slug, ResolveError> {
        slug_eating_snake_outcome(self.snake_repository, self.slug_repository, snake_id)
    }

    fn get_slug(&self, id: SlugID) -> (r: Result<Slug, ResolveError>) {
        self.slug_repository.get_slug(id)
    }

    fn get_slug_eating_snake(&self, snake_id: SnakeID) -> (r: Result<Slug, ResolveError>) {
        let snake = self.snake_repository.get_snake(snake_id)?;
        self.slug_repository.get_slug(snake.eaten_by)
    }
}

/// Frog orchestration over the frog and slug data-access capabilities.
pub struct FrogUseCaseImpl<FrogR: FrogRepository, SlugR: SlugRepository> {
    pub frog_repository: FrogR,
    pub slug_repository: SlugR,
}

impl<FrogR: FrogRepository, SlugR: SlugRepository> FrogUseCase
    for FrogUseCaseImpl<FrogR, SlugR> {
    open spec fn frog_at(&self, id: FrogID) -> Result<Frog, ResolveError> {
        self.frog_repository.frog_at(id)
    }

    open spec fn frog_eating_slug_at(&self, slug_id: SlugID) -> Result<Frog, ResolveError> {
        frog_eating_slug_outcome(self.slug_repository, self.frog_repository, slug_id)
    }

    fn get_frog(&self, id: FrogID) -> (r: Result<Frog, ResolveError>) {
        self.frog_repository.get_frog(id)
    }

    fn get_frog_eating_slug(&self, slug_id: SlugID) -> (r: Result<Frog, ResolveError>) {
        let slug = self.slug_repository.get_slug(slug_id)?;
        self.frog_repository.get_frog(slug.eaten_by)
    }
}

/// The concrete composition provider over any orchestration provider.
pub struct ServiceProviderImpl<'ucp, UCP: UseCaseProvider> {
    pub use_case: &'ucp UCP,
}

impl<'ucp, UCP: UseCaseProvider> ServiceProviderImpl<'ucp, UCP> {
    pub fn new(use_case: &'ucp UCP) -> (r: Self)
        ensures
            r.use_case == use_case,
    {
        Self { use_case }
    }
}

impl<'ucp, UCP: UseCaseProvider> ServiceProvider for ServiceProviderImpl<'ucp, UCP> {
    type SnakeService = SnakeServiceImpl<UCP::SnakeUseCase, UCP::FrogUseCase>;

    type SlugService = SlugServiceImpl<UCP::SlugUseCase, UCP::SnakeUseCase>;

    type FrogService = FrogServiceImpl<UCP::FrogUseCase, UCP::SlugUseCase>;

    open spec fn snake_service_spec(&self) -> Self::SnakeService {
        SnakeServiceImpl {
            snake_use_case: self.use_case.snake_use_case_spec(),
            frog_use_case: self.use_case.frog_use_case_spec(),
        }
    }

    open spec fn slug_service_spec(&self) -> Self::SlugService {
        SlugServiceImpl {
            slug_use_case: self.use_case.slug_use_case_spec(),
            snake_use_case: self.use_case.snake_use_case_spec(),
        }
    }

    open spec fn frog_service_spec(&self) -> Self::FrogService {
        FrogServiceImpl {
            frog_use_case: self.use_case.frog_use_case_spec(),
            slug_use_case: self.use_case.slug_use_case_spec(),
        }
    }

    fn snake_service(&self) -> (r: Self::SnakeService) {
        SnakeServiceImpl {
            snake_use_case: self.use_case.snake_use_case(),
            frog_use_case: self.use_case.frog_use_case(),
        }
    }

    fn slug_service(&self) -> (r: Self::SlugService) {
        SlugServiceImpl {
            slug_use_case: self.use_case.slug_use_case(),
            snake_use_case: self.use_case.snake_use_case(),
        }
    }

    fn frog_service(&self) -> (r: Self::FrogService) {
        FrogServiceImpl {
            frog_use_case: self.use_case.frog_use_case(),
            slug_use_case: self.use_case.slug_use_case(),
        }
    }
}

/// Snake composition over the snake and frog orchestration capabilities.
pub struct SnakeServiceImpl<SnakeUC: SnakeUseCase, FrogUC: FrogUseCase> {
    pub snake_use_case: SnakeUC,
    pub frog_use_case: FrogUC,
}

impl<SnakeUC: SnakeUseCase, FrogUC: FrogUseCase> SnakeService
    for SnakeServiceImpl<SnakeUC, FrogUC> {
    open spec fn snake_eating_frog_eating_slug_at(&self, slug_id: SlugID) -> Result<
        Snake,
        ResolveError,
    > {
        snake_eating_frog_eating_slug_outcome(self.snake_use_case, self.frog_use_case, slug_id)
    }

    fn get_snake_eating_frog_eating_slug(&self, slug_id: SlugID) -> (r: Result<
        Snake,
        ResolveError,
    >) {
        let frog = self.frog_use_case.get_frog_eating_slug(slug_id)?;
        self.snake_use_case.get_snake_eating_frog(frog.id)
    }
}

/// Slug composition over the slug and snake orchestration capabilities.
pub struct SlugServiceImpl<SlugUC: SlugUseCase, SnakeUC: SnakeUseCase> {
    pub slug_use_case: SlugUC,
    pub snake_use_case: SnakeUC,
}

impl<SlugUC: SlugUseCase, SnakeUC: SnakeUseCase> SlugService
    for SlugServiceImpl<SlugUC, SnakeUC> {
    open spec fn slug_eating_snake_eating_frog_at(&self, frog_id: FrogID) -> Result<
        Slug,
        ResolveError,
    > {
        slug_eating_snake_eating_frog_outcome(self.slug_use_case, self.snake_use_case, frog_id)
    }

    fn get_slug_eating_snake_eating_frog(&self, frog_id: FrogID) -> (r: Result<
        Slug,
        ResolveError,
    >) {
        let snake = self.snake_use_case.get_snake_eating_frog(frog_id)?;
        self.slug_use_case.get_slug_eating_snake(snake.id)
    }
}

/// Frog composition over the frog and slug orchestration capabilities.
pub struct FrogServiceImpl<FrogUC: FrogUseCase, SlugUC: SlugUseCase> {
    pub frog_use_case: FrogUC,
    pub slug_use_case: SlugUC,
}

impl<FrogUC: FrogUseCase, SlugUC: SlugUseCase> FrogService
    for FrogServiceImpl<FrogUC, SlugUC> {
    open spec fn frog_eating_slug_eating_snake_at(&self, snake_id: SnakeID) -> Result<
        Frog,
        ResolveError,
    > {
        frog_eating_slug_eating_snake_outcome(self.frog_use_case, self.slug_use_case, snake_id)
    }

    fn get_frog_eating_slug_eating_snake(&self, snake_id: SnakeID) -> (r: Result<
        Frog,
        ResolveError,
    >) {
        let slug = self.slug_use_case.get_slug_eating_snake(snake_id)?;
        self.frog_use_case.get_frog_eating_slug(slug.id)
    }
}

/// The entry point over any composition provider.
pub struct Handler<'sp, SP: ServiceProvider> {
    pub service: &'sp SP,
}

impl<'sp, SP: ServiceProvider> Handler<'sp, SP> {
    pub fn new(service: &'sp SP) -> (r: Self)
        ensures
            r.service == service,
    {
        Self { service }
    }

    /// Issues the three symmetric two-hop queries from the zero identities
    /// and collects the results, failing on the first error encountered
    /// with no partial result.
    pub fn run(&self) -> (r: Result<(Snake, Slug, Frog), ResolveError>)
        ensures
            r == entry_outcome(
                self.service.snake_service_spec().snake_eating_frog_eating_slug_at(SlugID(0)),
                self.service.slug_service_spec().slug_eating_snake_eating_frog_at(FrogID(0)),
                self.service.frog_service_spec().frog_eating_slug_eating_snake_at(SnakeID(0)),
            ),
    {
        let snake = self.service.snake_service().get_snake_eating_frog_eating_slug(
            SlugID::default(),
        )?;
        let slug = self.service.slug_service().get_slug_eating_snake_eating_frog(
            FrogID::default(),
        )?;
        let frog = self.service.frog_service().get_frog_eating_slug_eating_snake(
            SnakeID::default(),
        )?;
        Ok((snake, slug, frog))
    }
}

} // verus!
