//! The port through which the identity of the authenticated user is looked up.
use vstd::prelude::*;

verus! {

/// Errors that can occur when an [AuthReader] adapter tries to fetch the current
/// authentication information
#[derive(Debug)]
pub enum AuthRetrieveError {
    AdapterError(anyhow::Error),
}

/// Information about the user accessing GetOutline
#[derive(Debug)]
pub struct UserInfo {
    pub id: String,
    pub name: String,
}

/// Contains authentication information about the person accessing GetOutline
#[derive(Debug)]
pub struct AuthInfo {
    pub user: UserInfo,
}

/// Something that can read authentication information from GetOutline
pub trait AuthReader {
    /// Holds of each answer that this reader may give when asked who is authenticated.
    /// A reader that states nothing of its answers admits every one.
    closed spec fn current_answer(&self, r: Result<AuthInfo, AuthRetrieveError>) -> bool {
        true
    }

    /// Retrieve information about the currently authenticated user
    fn current(&self) -> (r: Result<AuthInfo, AuthRetrieveError>)
        ensures
            self.current_answer(r),
    ;
}

} // verus!
