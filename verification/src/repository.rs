use vstd::prelude::*;
use std::sync::Arc;
use crate::model::User;

verus! {

#[verifier::external_type_specification]
#[verifier::external_body]
pub struct ExAnyhowError(anyhow::Error);

/// Where users are kept; implemented by the storage the application chooses.
pub trait UserRepository {
    /// Every stored user, or the storage's error.
    fn get_all_users(&self) -> Result<Vec<User>, anyhow::Error>;
}

/// The user use cases, over a shared repository.
pub struct UserUseCase<R: UserRepository> {
    repository: Arc<R>,
}

impl<R: UserRepository> UserUseCase<R> {
    /// The repository the use cases work on.
    pub closed spec fn spec_repository(&self) -> Arc<R> {
        self.repository
    }

    pub fn new(repository: Arc<R>) -> (r: Self)
        ensures
            r.spec_repository() == repository,
    {
        UserUseCase { repository }
    }
}

} // verus!
