//! The signed-in user, as cached in memory and kept in the user file.
//!
//! The cache is consulted first; only when it is empty is the user file read,
//! and whatever that read gives (a user or nothing) becomes the cache.
//! Saving a user writes the file and leaves the cache as it is.

use vstd::prelude::*;

verus! {

/// The profile that the sign-in provider returns.
#[derive(Debug, PartialEq, Eq)]
pub struct GoogleUser {
    pub id: String,
    pub name: String,
    pub email: String,
    pub picture: String,
}

/// Mathematical value of a profile.
pub struct UserProfile {
    pub id: Seq<char>,
    pub name: Seq<char>,
    pub email: Seq<char>,
    pub picture: Seq<char>,
}

impl View for GoogleUser {
    type V = UserProfile;

    open spec fn view(&self) -> UserProfile {
        UserProfile { id: self.id@, name: self.name@, email: self.email@, picture: self.picture@ }
    }
}

impl Clone for GoogleUser {
    fn clone(&self) -> (copy: Self)
        ensures
            copy == *self,
    {
        GoogleUser {
            id: self.id.clone(),
            name: self.name.clone(),
            email: self.email.clone(),
            picture: self.picture.clone(),
        }
    }
}

pub open spec fn profile_view(user: Option<GoogleUser>) -> Option<UserProfile> {
    match user {
        Some(u) => Some(u@),
        None => None,
    }
}

/// The in-memory cache of the signed-in user.
pub struct UserSession {
    logged_user: Option<GoogleUser>,
}

impl View for UserSession {
    type V = Option<UserProfile>;

    closed spec fn view(&self) -> Option<UserProfile> {
        profile_view(self.logged_user)
    }
}

/// What a request for the current user needs next.
#[derive(Debug, PartialEq, Eq)]
pub enum UserLookup {
    /// The cache holds this user; it is the answer.
    Cached(GoogleUser),
    /// The cache is empty: read the user file and hand the outcome to
    /// [`store_loaded_user`].
    LoadFromFile,
}

/// Mathematical value of a [`UserLookup`].
pub enum LookupStep {
    Cached(UserProfile),
    LoadFromFile,
}

pub open spec fn lookup_view(step: UserLookup) -> LookupStep {
    match step {
        UserLookup::Cached(u) => LookupStep::Cached(u@),
        UserLookup::LoadFromFile => LookupStep::LoadFromFile,
    }
}

/// The step that a request for the current user takes with cache `cached`.
pub open spec fn lookup_spec(cached: Option<UserProfile>) -> LookupStep {
    match cached {
        Some(u) => LookupStep::Cached(u),
        None => LookupStep::LoadFromFile,
    }
}

/// What is to be done to the user file.
#[derive(Debug, PartialEq, Eq)]
pub enum UserFileOp {
    /// Write this user to the file, replacing what it held.
    Write(GoogleUser),
    /// Delete the file.
    Remove,
}

impl UserSession {
    /// A session with nothing cached.
    pub fn new() -> (session: Self)
        ensures
            session@ == None::<UserProfile>,
    {
        UserSession { logged_user: None }
    }
}

/// Whether the cache holds no user.
pub fn is_logged_user_none(session: &UserSession) -> (none: bool)
    ensures
        none == (session@ is None),
{
    session.logged_user.is_none()
}

/// The first step of answering a request for the current user: the cached
/// user if there is one, else a read of the user file.
pub fn get_user(session: &UserSession) -> (step: UserLookup)
    ensures
        lookup_view(step) == lookup_spec(session@),
{
    match &session.logged_user {
        Some(user) => UserLookup::Cached(user.clone()),
        None => UserLookup::LoadFromFile,
    }
}

/// The second step, after a read of the user file gave `logged_user`: it
/// becomes the cache, and it is the answer.
pub fn store_loaded_user(session: &mut UserSession, logged_user: Option<GoogleUser>) -> (answer:
    Option<GoogleUser>)
    ensures
        final(session)@ == profile_view(logged_user),
        answer == logged_user,
{
    let answer = match &logged_user {
        Some(user) => Some(user.clone()),
        None => None,
    };
    session.logged_user = logged_user;
    answer
}

/// Saving a signed-in user: the user file is to hold `google_user`. The
/// cache is not touched.
pub fn set_user(google_user: GoogleUser) -> (op: UserFileOp)
    ensures
        op == UserFileOp::Write(google_user),
{
    UserFileOp::Write(google_user)
}

/// Signing out: the user file is to be deleted. The cache is not touched.
pub fn logout_user() -> (op: UserFileOp)
    ensures
        op == UserFileOp::Remove,
{
    UserFileOp::Remove
}

/// Once a user has been loaded into the cache, later requests are answered
/// from the cache with that user, without reading the file again.
pub proof fn lemma_loaded_user_is_served_from_cache(loaded: UserProfile)
    ensures
        lookup_spec(Some(loaded)) == LookupStep::Cached(loaded),
{
}

/// When the file held no user, the cache stays empty and the next request
/// reads the file again.
pub proof fn lemma_missing_user_is_looked_up_again()
    ensures
        lookup_spec(None) == LookupStep::LoadFromFile,
{
}

} // verus!
