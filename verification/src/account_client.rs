//! The account service as seen by the authentication service: the user
//! records it answers with, and the two clients of it (the network client,
//! whose calls are not wired yet, and the development stand-in).

use vstd::prelude::*;
use crate::error::AuthError;
use crate::ids::{email_to_uuid, uuid_from_low_le_bytes, default_str_hash, uuid_string, uuid_text};
use crate::text::{before_first, prefix_before, string_append, to_owned_string};

verus! {

/// A user record of the account service.
#[derive(Debug, Clone)]
pub struct UserInfo {
    pub user_id: u128,
    pub email: String,
    pub nickname: String,
    pub password_hash: String,
}

/// Client of the account service over gRPC; it records the address only, and
/// its calls answer as an unreachable service would.
pub struct GrpcAccountClient {
    addr: String,
}

impl View for GrpcAccountClient {
    type V = Seq<char>;

    /// The address of the account service.
    closed spec fn view(&self) -> Seq<char> {
        self.addr@
    }
}

impl GrpcAccountClient {
    pub fn new(addr: &str) -> (c: GrpcAccountClient)
        ensures
            c@ == addr@,
    {
        GrpcAccountClient { addr: to_owned_string(addr) }
    }

    pub fn register_user(&self, email: &str, password_hash: &str, nickname: &str) -> (r: Result<u128, AuthError>)
        ensures
            r == Err::<u128, AuthError>(AuthError::AccountNotFound),
    {
        Err(AuthError::AccountNotFound)
    }

    pub fn get_user_by_email(&self, email: &str) -> (r: Result<UserInfo, AuthError>)
        ensures
            r matches Err(e) && e == AuthError::UserNotFound,
    {
        Err(AuthError::UserNotFound)
    }

    pub fn get_user_by_id(&self, user_id: u128) -> (r: Result<UserInfo, AuthError>)
        ensures
            r matches Err(e) && e == AuthError::UserNotFound,
    {
        Err(AuthError::UserNotFound)
    }

    pub fn update_email(&self, user_id: u128, new_email: &str) -> (r: Result<(), AuthError>)
        ensures
            r is Ok,
    {
        Ok(())
    }

    pub fn update_password_hash(&self, user_id: u128, new_password_hash: &str) -> (r: Result<(), AuthError>)
        ensures
            r is Ok,
    {
        Ok(())
    }

    pub fn soft_delete_user(&self, user_id: u128, deleted_at: &str) -> (r: Result<(), AuthError>)
        ensures
            r is Ok,
    {
        Ok(())
    }
}

/// The e-mail address the development client gives a user known by id.
pub open spec fn dev_email_for(user_id: u128) -> Seq<char> {
    "user_"@ + uuid_text(user_id) + "@upgo.local"@
}

/// Development stand-in for the account service: users exist for every
/// e-mail address, with identifiers derived from the address.
pub struct DevAccountClient;

impl DevAccountClient {
    pub fn register_user(&self, email: &str, password_hash: &str, nickname: &str) -> (r: Result<u128, AuthError>)
        ensures
            r == Ok::<u128, AuthError>(uuid_from_low_le_bytes(default_str_hash(email@))),
    {
        Ok(email_to_uuid(email))
    }

    pub fn get_user_by_email(&self, email: &str) -> (r: Result<UserInfo, AuthError>)
        ensures
            r matches Ok(u) && u.user_id == uuid_from_low_le_bytes(default_str_hash(email@))
                && u.email@ == email@ && u.nickname@ == before_first(email@, '@')
                && u.password_hash@ == Seq::<char>::empty(),
    {
        Ok(UserInfo {
            user_id: email_to_uuid(email),
            email: to_owned_string(email),
            nickname: prefix_before(email, '@'),
            password_hash: String::new(),
        })
    }

    pub fn get_user_by_id(&self, user_id: u128) -> (r: Result<UserInfo, AuthError>)
        ensures
            r matches Ok(u) && u.user_id == user_id && u.email@ == dev_email_for(user_id)
                && u.nickname@ == "User"@ && u.password_hash@ == Seq::<char>::empty(),
    {
        let mut email = to_owned_string("user_");
        let id = uuid_string(user_id);
        string_append(&mut email, id.as_str());
        string_append(&mut email, "@upgo.local");
        Ok(UserInfo { user_id, email, nickname: to_owned_string("User"), password_hash: String::new() })
    }

    pub fn update_email(&self, user_id: u128, new_email: &str) -> (r: Result<(), AuthError>)
        ensures
            r is Ok,
    {
        Ok(())
    }

    pub fn update_password_hash(&self, user_id: u128, new_password_hash: &str) -> (r: Result<(), AuthError>)
        ensures
            r is Ok,
    {
        Ok(())
    }

    pub fn soft_delete_user(&self, user_id: u128, deleted_at: &str) -> (r: Result<(), AuthError>)
        ensures
            r is Ok,
    {
        Ok(())
    }
}

} // verus!
