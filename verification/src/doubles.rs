//! Hand-written substitute implementations of every capability trait, so
//! each layer can be exercised in isolation with dependencies whose
//! behaviour is chosen by the caller.
//!
//! A data-access stub is a one-record in-memory store: it resolves exactly
//! its own record's identity and reports every other identity as missing,
//! or fails every call with a configured error.  Orchestration and
//! composition stubs answer every call with one configured outcome, the
//! way a substituted upper layer would.  The set types bundle three stubs
//! into one value that can stand in for a whole layer under any of the
//! three wiring strategies.

use vstd::prelude::*;

use crate::domain::FrogID;
use crate::domain::FrogRepository;
use crate::domain::FrogService;
use crate::domain::FrogUseCase;
use crate::domain::Frog;
use crate::domain::ResolveError;
use crate::domain::SlugID;
use crate::domain::SlugRepository;
use crate::domain::SlugService;
use crate::domain::SlugUseCase;
use crate::domain::Slug;
use crate::domain::SnakeID;
use crate::domain::SnakeRepository;
use crate::domain::SnakeService;
use crate::domain::SnakeUseCase;
use crate::domain::Snake;

verus! {

/// A substitute snake data source holding one record.
#[derive(Clone, Copy, Debug)]
pub struct StubSnakeRepository {
    pub record: Snake,
    pub error: Option<ResolveError>,
}

impl SnakeRepository for StubSnakeRepository {
    /// With an error configured, every lookup fails with it; otherwise the
    /// record is found under exactly its own identity and every other
    /// identity is missing.
    open spec fn snake_at(&self, id: SnakeID) -> Result<Snake, ResolveError> {
        match self.error {
            Some(e) => Err(e),
            None => if id == self.record.id {
                Ok(self.record)
            } else {
                Err(ResolveError::NotFound)
            },
        }
    }

    fn get_snake(&self, id: SnakeID) -> (r: Result<Snake, ResolveError>) {
        match self.error {
            Some(e) => Err(e),
            None => if id == self.record.id {
                Ok(self.record)
            } else {
                Err(ResolveError::NotFound)
            },
        }
    }
}

/// A substitute slug data source holding one record.
#[derive(Clone, Copy, Debug)]
pub struct StubSlugRepository {
    pub record: Slug,
    pub error: Option<ResolveError>,
}

impl SlugRepository for StubSlugRepository {
    /// With an error configured, every lookup fails with it; otherwise the
    /// record is found under exactly its own identity and every other
    /// identity is missing.
    open spec fn slug_at(&self, id: SlugID) -> Result<Slug, ResolveError> {
        match self.error {
            Some(e) => Err(e),
            None => if id == self.record.id {
                Ok(self.record)
            } else {
                Err(ResolveError::NotFound)
            },
        }
    }

    fn get_slug(&self, id: SlugID) -> (r: Result<Slug, ResolveError>) {
        match self.error {
            Some(e) => Err(e),
            None => if id == self.record.id {
                Ok(self.record)
            } else {
                Err(ResolveError::NotFound)
            },
        }
    }
}

/// A substitute frog data source holding one record.
#[derive(Clone, Copy, Debug)]
pub struct StubFrogRepository {
    pub record: Frog,
    pub error: Option<ResolveError>,
}

impl FrogRepository for StubFrogRepository {
    /// With an error configured, every lookup fails with it; otherwise the
    /// record is found under exactly its own identity and every other
    /// identity is missing.
    open spec fn frog_at(&self, id: FrogID) -> Result<Frog, ResolveError> {
        match self.error {
            Some(e) => Err(e),
            None => if id == self.record.id {
                Ok(self.record)
            } else {
                Err(ResolveError::NotFound)
            },
        }
    }

    fn get_frog(&self, id: FrogID) -> (r: Result<Frog, ResolveError>) {
        match self.error {
            Some(e) => Err(e),
            None => if id == self.record.id {
                Ok(self.record)
            } else {
                Err(ResolveError::NotFound)
            },
        }
    }
}

/// A substitute snake orchestration layer answering every call with one
/// configured outcome.
#[derive(Clone, Copy, Debug)]
pub struct StubSnakeUseCase {
    pub record: Snake,
    pub error: Option<ResolveError>,
}

impl SnakeUseCase for StubSnakeUseCase {
    open spec fn snake_at(&self, id: SnakeID) -> Result<Snake, ResolveError> {
        match self.error {
            Some(e) => Err(e),
            None => Ok(self.record),
        }
    }

    open spec fn snake_eating_frog_at(&self, frog_id: FrogID) -> Result<Snake, ResolveError> {
        match self.error {
            Some(e) => Err(e),
            None => Ok(self.record),
        }
    }

    fn get_snake(&self, id: SnakeID) -> (r: Result<Snake, ResolveError>) {
        match self.error {
            Some(e) => Err(e),
            None => Ok(self.record),
        }
    }

    fn get_snake_eating_frog(&self, frog_id: FrogID) -> (r: Result<Snake, ResolveError>) {
        match self.error {
            Some(e) => Err(e),
            None => Ok(self.record),
        }
    }
}

/// A substitute slug orchestration layer answering every call with one
/// configured outcome.
#[derive(Clone, Copy, Debug)]
pub struct StubSlugUseCase {
    pub record: Slug,
    pub error: Option<ResolveError>,
}

impl SlugUseCase for StubSlugUseCase {
    open spec fn slug_at(&self, id: SlugID) -> Result<Slug, ResolveError> {
        match self.error {
            Some(e) => Err(e),
            None => Ok(self.record),
        }
    }

    open spec fn slug_eating_snake_at(&self, snake_id: SnakeID) -> Result<Slug, ResolveError> {
        match self.error {
            Some(e) => Err(e),
            None => Ok(self.record),
        }
    }

    fn get_slug(&self, id: SlugID) -> (r: Result<Slug, ResolveError>) {
        match self.error {
            Some(e) => Err(e),
            None => Ok(self.record),
        }
    }

    fn get_slug_eating_snake(&self, snake_id: SnakeID) -> (r: Result<Slug, ResolveError>) {
        match self.error {
            Some(e) => Err(e),
            None => Ok(self.record),
        }
    }
}

/// A substitute frog orchestration layer answering every call with one
/// configured outcome.
#[derive(Clone, Copy, Debug)]
pub struct StubFrogUseCase {
    pub record: Frog,
    pub error: Option<ResolveError>,
}

impl FrogUseCase for StubFrogUseCase {
    open spec fn frog_at(&self, id: FrogID) -> Result<Frog, ResolveError> {
        match self.error {
            Some(e) => Err(e),
            None => Ok(self.record),
        }
    }

    open spec fn frog_eating_slug_at(&self, slug_id: SlugID) -> Result<Frog, ResolveError> {
        match self.error {
            Some(e) => Err(e),
            None => Ok(self.record),
        }
    }

    fn get_frog(&self, id: FrogID) -> (r: Result<Frog, ResolveError>) {
        match self.error {
            Some(e) => Err(e),
            None => Ok(self.record),
        }
    }

    fn get_frog_eating_slug(&self, slug_id: SlugID) -> (r: Result<Frog, ResolveError>) {
        match self.error {
            Some(e) => Err(e),
            None => Ok(self.record),
        }
    }
}

/// A substitute snake composition layer answering every call with one
/// configured outcome.
#[derive(Clone, Copy, Debug)]
pub struct StubSnakeService {
    pub record: Snake,
    pub error: Option<ResolveError>,
}

impl SnakeService for StubSnakeService {
    open spec fn snake_eating_frog_eating_slug_at(&self, slug_id: SlugID) -> Result<
        Snake,
        ResolveError,
    > {
        match self.error {
            Some(e) => Err(e),
            None => Ok(self.record),
        }
    }

    fn get_snake_eating_frog_eating_slug(&self, slug_id: SlugID) -> (r: Result<
        Snake,
        ResolveError,
    >) {
        match self.error {
            Some(e) => Err(e),
            None => Ok(self.record),
        }
    }
}

/// A substitute slug composition layer answering every call with one
/// configured outcome.
#[derive(Clone, Copy, Debug)]
pub struct StubSlugService {
    pub record: Slug,
    pub error: Option<ResolveError>,
}

impl SlugService for StubSlugService {
    open spec fn slug_eating_snake_eating_frog_at(&self, frog_id: FrogID) -> Result<
        Slug,
        ResolveError,
    > {
        match self.error {
            Some(e) => Err(e),
            None => Ok(self.record),
        }
    }

    fn get_slug_eating_snake_eating_frog(&self, frog_id: FrogID) -> (r: Result<
        Slug,
        ResolveError,
    >) {
        match self.error {
            Some(e) => Err(e),
            None => Ok(self.record),
        }
    }
}

/// A substitute frog composition layer answering every call with one
/// configured outcome.
#[derive(Clone, Copy, Debug)]
pub struct StubFrogService {
    pub record: Frog,
    pub error: Option<ResolveError>,
}

impl FrogService for StubFrogService {
    open spec fn frog_eating_slug_eating_snake_at(&self, snake_id: SnakeID) -> Result<
        Frog,
        ResolveError,
    > {
        match self.error {
            Some(e) => Err(e),
            None => Ok(self.record),
        }
    }

    fn get_frog_eating_slug_eating_snake(&self, snake_id: SnakeID) -> (r: Result<
        Frog,
        ResolveError,
    >) {
        match self.error {
            Some(e) => Err(e),
            None => Ok(self.record),
        }
    }
}

/// A whole substitute data-access layer: three one-record stores in one
/// value.  It plays all three repository roles itself and also acts as a
/// provider under either provider style, so the very same substitute data
/// can be wired through every strategy.
#[derive(Clone, Copy, Debug)]
pub struct StubRepositorySet {
    pub snakes: StubSnakeRepository,
    pub slugs: StubSlugRepository,
    pub frogs: StubFrogRepository,
}

impl SnakeRepository for StubRepositorySet {
    open spec fn snake_at(&self, id: SnakeID) -> Result<Snake, ResolveError> {
        self.snakes.snake_at(id)
    }

    fn get_snake(&self, id: SnakeID) -> (r: Result<Snake, ResolveError>) {
        self.snakes.get_snake(id)
    }
}

impl SlugRepository for StubRepositorySet {
    open spec fn slug_at(&self, id: SlugID) -> Result<Slug, ResolveError> {
        self.slugs.slug_at(id)
    }

    fn get_slug(&self, id: SlugID) -> (r: Result<Slug, ResolveError>) {
        self.slugs.get_slug(id)
    }
}

impl FrogRepository for StubRepositorySet {
    open spec fn frog_at(&self, id: FrogID) -> Result<Frog, ResolveError> {
        self.frogs.frog_at(id)
    }

    fn get_frog(&self, id: FrogID) -> (r: Result<Frog, ResolveError>) {
        self.frogs.get_frog(id)
    }
}

impl crate::cake_pattern::RepositoryProvider for StubRepositorySet {
    type SnakeRepository = StubSnakeRepository;

    type SlugRepository = StubSlugRepository;

    type FrogRepository = StubFrogRepository;

    open spec fn snake_repository_spec(&self) -> Self::SnakeRepository {
        self.snakes
    }

    open spec fn slug_repository_spec(&self) -> Self::SlugRepository {
        self.slugs
    }

    open spec fn frog_repository_spec(&self) -> Self::FrogRepository {
        self.frogs
    }

    fn snake_repository(&self) -> (r: Self::SnakeRepository) {
        self.snakes
    }

    fn slug_repository(&self) -> (r: Self::SlugRepository) {
        self.slugs
    }

    fn frog_repository(&self) -> (r: Self::FrogRepository) {
        self.frogs
    }
}

impl crate::has_all_dependency::RepositoryProvider for StubRepositorySet {
    type SnakeRepository = StubSnakeRepository;

    type SlugRepository = StubSlugRepository;

    type FrogRepository = StubFrogRepository;

    open spec fn snake_repository_spec(&self) -> Self::SnakeRepository {
        self.snakes
    }

    open spec fn slug_repository_spec(&self) -> Self::SlugRepository {
        self.slugs
    }

    open spec fn frog_repository_spec(&self) -> Self::FrogRepository {
        self.frogs
    }

    fn snake_repository(&self) -> (r: &Self::SnakeRepository) {
        &self.snakes
    }

    fn slug_repository(&self) -> (r: &Self::SlugRepository) {
        &self.slugs
    }

    fn frog_repository(&self) -> (r: &Self::FrogRepository) {
        &self.frogs
    }
}

/// A whole substitute orchestration layer: three constant-outcome stubs in
/// one value, playing all three use-case roles and both provider styles.
#[derive(Clone, Copy, Debug)]
pub struct StubUseCaseSet {
    pub snakes: StubSnakeUseCase,
    pub slugs: StubSlugUseCase,
    pub frogs: StubFrogUseCase,
}

impl SnakeUseCase for StubUseCaseSet {
    open spec fn snake_at(&self, id: SnakeID) -> Result<Snake, ResolveError> {
        self.snakes.snake_at(id)
    }

    open spec fn snake_eating_frog_at(&self, frog_id: FrogID) -> Result<Snake, ResolveError> {
        self.snakes.snake_eating_frog_at(frog_id)
    }

    fn get_snake(&self, id: SnakeID) -> (r: Result<Snake, ResolveError>) {
        self.snakes.get_snake(id)
    }

    fn get_snake_eating_frog(&self, frog_id: FrogID) -> (r: Result<Snake, ResolveError>) {
        self.snakes.get_snake_eating_frog(frog_id)
    }
}

impl SlugUseCase for StubUseCaseSet {
    open spec fn slug_at(&self, id: SlugID) -> Result<Slug, ResolveError> {
        self.slugs.slug_at(id)
    }

    open spec fn slug_eating_snake_at(&self, snake_id: SnakeID) -> Result<Slug, ResolveError> {
        self.slugs.slug_eating_snake_at(snake_id)
    }

    fn get_slug(&self, id: SlugID) -> (r: Result<Slug, ResolveError>) {
        self.slugs.get_slug(id)
    }

    fn get_slug_eating_snake(&self, snake_id: SnakeID) -> (r: Result<Slug, ResolveError>) {
        self.slugs.get_slug_eating_snake(snake_id)
    }
}

impl FrogUseCase for StubUseCaseSet {
    open spec fn frog_at(&self, id: FrogID) -> Result<Frog, ResolveError> {
        self.frogs.frog_at(id)
    }

    open spec fn frog_eating_slug_at(&self, slug_id: SlugID) -> Result<Frog, ResolveError> {
        self.frogs.frog_eating_slug_at(slug_id)
    }

    fn get_frog(&self, id: FrogID) -> (r: Result<Frog, ResolveError>) {
        self.frogs.get_frog(id)
    }

    fn get_frog_eating_slug(&self, slug_id: SlugID) -> (r: Result<Frog, ResolveError>) {
        self.frogs.get_frog_eating_slug(slug_id)
    }
}

impl crate::cake_pattern::UseCaseProvider for StubUseCaseSet {
    type SnakeUseCase = StubSnakeUseCase;

    type SlugUseCase = StubSlugUseCase;

    type FrogUseCase = StubFrogUseCase;

    open spec fn snake_use_case_spec(&self) -> Self::SnakeUseCase {
        self.snakes
    }

    open spec fn slug_use_case_spec(&self) -> Self::SlugUseCase {
        self.slugs
    }

    open spec fn frog_use_case_spec(&self) -> Self::FrogUseCase {
        self.frogs
    }

    fn snake_use_case(&self) -> (r: Self::SnakeUseCase) {
        self.snakes
    }

    fn slug_use_case(&self) -> (r: Self::SlugUseCase) {
        self.slugs
    }

    fn frog_use_case(&self) -> (r: Self::FrogUseCase) {
        self.frogs
    }
}

impl crate::has_all_dependency::UseCaseProvider for StubUseCaseSet {
    type SnakeUseCase = StubSnakeUseCase;

    type SlugUseCase = StubSlugUseCase;

    type FrogUseCase = StubFrogUseCase;

    open spec fn snake_use_case_spec(&self) -> Self::SnakeUseCase {
        self.snakes
    }

    open spec fn slug_use_case_spec(&self) -> Self::SlugUseCase {
        self.slugs
    }

    open spec fn frog_use_case_spec(&self) -> Self::FrogUseCase {
        self.frogs
    }

    fn snake_use_case(&self) -> (r: &Self::SnakeUseCase) {
        &self.snakes
    }

    fn slug_use_case(&self) -> (r: &Self::SlugUseCase) {
        &self.slugs
    }

    fn frog_use_case(&self) -> (r: &Self::FrogUseCase) {
        &self.frogs
    }
}

/// A whole substitute composition layer: three constant-outcome stubs in
/// one value, playing all three service roles and both provider styles.
#[derive(Clone, Copy, Debug)]
pub struct StubServiceSet {
    pub snakes: StubSnakeService,
    pub slugs: StubSlugService,
    pub frogs: StubFrogService,
}

impl SnakeService for StubServiceSet {
    open spec fn snake_eating_frog_eating_slug_at(&self, slug_id: SlugID) -> Result<
        Snake,
        ResolveError,
    > {
        self.snakes.snake_eating_frog_eating_slug_at(slug_id)
    }

    fn get_snake_eating_frog_eating_slug(&self, slug_id: SlugID) -> (r: Result<
        Snake,
        ResolveError,
    >) {
        self.snakes.get_snake_eating_frog_eating_slug(slug_id)
    }
}

impl SlugService for StubServiceSet {
    open spec fn slug_eating_snake_eating_frog_at(&self, frog_id: FrogID) -> Result<
        Slug,
        ResolveError,
    > {
        self.slugs.slug_eating_snake_eating_frog_at(frog_id)
    }

    fn get_slug_eating_snake_eating_frog(&self, frog_id: FrogID) -> (r: Result<
        Slug,
        ResolveError,
    >) {
        self.slugs.get_slug_eating_snake_eating_frog(frog_id)
    }
}

impl FrogService for StubServiceSet {
    open spec fn frog_eating_slug_eating_snake_at(&self, snake_id: SnakeID) -> Result<
        Frog,
        ResolveError,
    > {
        self.frogs.frog_eating_slug_eating_snake_at(snake_id)
    }

    fn get_frog_eating_slug_eating_snake(&self, snake_id: SnakeID) -> (r: Result<
        Frog,
        ResolveError,
    >) {
        self.frogs.get_frog_eating_slug_eating_snake(snake_id)
    }
}

impl crate::cake_pattern::ServiceProvider for StubServiceSet {
    type SnakeService = StubSnakeService;

    type SlugService = StubSlugService;

    type FrogService = StubFrogService;

    open spec fn snake_service_spec(&self) -> Self::SnakeService {
        self.snakes
    }

    open spec fn slug_service_spec(&self) -> Self::SlugService {
        self.slugs
    }

    open spec fn frog_service_spec(&self) -> Self::FrogService {
        self.frogs
    }

    fn snake_service(&self) -> (r: Self::SnakeService) {
        self.snakes
    }

    fn slug_service(&self) -> (r: Self::SlugService) {
        self.slugs
    }

    fn frog_service(&self) -> (r: Self::FrogService) {
        self.frogs
    }
}

impl crate::has_all_dependency::ServiceProvider for StubServiceSet {
    type SnakeService = StubSnakeService;

    type SlugService = StubSlugService;

    type FrogService = StubFrogService;

    open spec fn snake_service_spec(&self) -> Self::SnakeService {
        self.snakes
    }

    open spec fn slug_service_spec(&self) -> Self::SlugService {
        self.slugs
    }

    open spec fn frog_service_spec(&self) -> Self::FrogService {
        self.frogs
    }

    fn snake_service(&self) -> (r: &Self::SnakeService) {
        &self.snakes
    }

    fn slug_service(&self) -> (r: &Self::SlugService) {
        &self.slugs
    }

    fn frog_service(&self) -> (r: &Self::FrogService) {
        &self.frogs
    }
}

} // verus!
