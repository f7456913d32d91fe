//! The two layers of session credentials.
use vstd::prelude::*;
use crate::text::opt_view;

verus! {

/// The login token, supplied by an outside login flow, and the operation token,
/// scraped from the service's page.
#[derive(Debug)]
pub struct Credentials {
    login_token: Option<String>,
    operation_token: Option<String>,
}

/// The tokens of a credential store as text.
pub struct CredentialsModel {
    pub login: Option<Seq<char>>,
    pub operation: Option<Seq<char>>,
}

fn clone_token(o: &Option<String>) -> (r: Option<String>)
    ensures
        opt_view(r) == opt_view(*o),
{
    match o {
        Some(s) => Some(s.clone()),
        None => None,
    }
}

impl View for Credentials {
    type V = CredentialsModel;

    closed spec fn view(&self) -> CredentialsModel {
        CredentialsModel { login: opt_view(self.login_token), operation: opt_view(self.operation_token) }
    }
}

impl Credentials {
    /// An empty store, as at process start.
    pub fn new() -> (r: Credentials)
        ensures
            r@.login is None,
            r@.operation is None,
    {
        Credentials { login_token: None, operation_token: None }
    }

    /// A copy of both tokens, taken together.
    pub fn get(&self) -> (r: Credentials)
        ensures
            r@ == self@,
    {
        Credentials {
            login_token: clone_token(&self.login_token),
            operation_token: clone_token(&self.operation_token),
        }
    }

    /// The login token, if one is set.
    pub fn login_token(&self) -> (r: Option<String>)
        ensures
            opt_view(r) == self@.login,
    {
        clone_token(&self.login_token)
    }

    /// The operation token, if one is set.
    pub fn operation_token(&self) -> (r: Option<String>)
        ensures
            opt_view(r) == self@.operation,
    {
        clone_token(&self.operation_token)
    }

    /// Replaces the login token; the operation token stays.
    pub fn set_login_token(&mut self, token: &str)
        ensures
            final(self)@ == (CredentialsModel { login: Some(token@), operation: old(self)@.operation }),
    {
        self.login_token = Some(token.to_string());
    }

    /// Replaces the operation token; the login token stays.
    pub fn set_operation_token(&mut self, token: &str)
        ensures
            final(self)@ == (CredentialsModel { login: old(self)@.login, operation: Some(token@) }),
    {
        self.operation_token = Some(token.to_string());
    }
}

} // verus!
