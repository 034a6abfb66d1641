//! Where the records live in the remote REST data store.

use vstd::prelude::*;
use vstd::string::*;
use crate::ids::{uuid_text, uuid_to_text};
use crate::text::{ends_with, has_suffix, trim_end_slashes, without_end_slashes};

verus! {

/// The root of the REST interface of a project: the project address itself
/// where it already ends in `/rest/v1`, else that path appended to it after
/// dropping its trailing slashes.
pub open spec fn rest_root(project_url: Seq<char>) -> Seq<char> {
    if ends_with(project_url, "/rest/v1"@) {
        project_url
    } else {
        trim_end_slashes(project_url) + "/rest/v1"@
    }
}

pub fn rest_root_of(project_url: &str) -> (r: String)
    ensures
        r@ == rest_root(project_url@),
{
    if has_suffix(project_url, "/rest/v1") {
        String::from_str(project_url)
    } else {
        without_end_slashes(project_url).concat("/rest/v1")
    }
}

/// The user records of the remote data store.
#[derive(Debug)]
pub struct AuthSupabaseRepo {
    pub project_url: String,
    pub api_key: String,
}

/// The plant records of the remote data store.
#[derive(Debug)]
pub struct PlantSupabaseRepo {
    pub project_url: String,
    pub api_key: String,
}

impl AuthSupabaseRepo {
    /// The address of the user table.
    pub fn base_url(&self) -> (r: String)
        ensures
            r@ == rest_root(self.project_url@) + "/users"@,
    {
        rest_root_of(self.project_url.as_str()).concat("/users")
    }

    /// The address that selects the users with the given e-mail address.
    pub fn email_url(&self, email: &str) -> (r: String)
        ensures
            r@ == rest_root(self.project_url@) + "/users"@ + "?email=eq."@ + email@,
    {
        self.base_url().concat("?email=eq.").concat(email)
    }

    /// The address that selects the user with the given id.
    pub fn user_url(&self, id: u128) -> (r: String)
        ensures
            r@ == rest_root(self.project_url@) + "/users"@ + "?id=eq."@ + uuid_text(id),
    {
        let id_text = uuid_to_text(id);
        self.base_url().concat("?id=eq.").concat(id_text.as_str())
    }
}

impl PlantSupabaseRepo {
    /// The address of the plant table.
    pub fn base_url(&self) -> (r: String)
        ensures
            r@ == rest_root(self.project_url@) + "/plants"@,
    {
        rest_root_of(self.project_url.as_str()).concat("/plants")
    }

    /// The address that selects all plants of a user, newest first.
    pub fn user_plants_url(&self, user_id: u128) -> (r: String)
        ensures
            r@ == rest_root(self.project_url@) + "/plants"@ + "?user_id=eq."@ + uuid_text(user_id)
                + "&order=created_at.desc"@,
    {
        let user_text = uuid_to_text(user_id);
        self.base_url().concat("?user_id=eq.").concat(user_text.as_str()).concat(
            "&order=created_at.desc",
        )
    }

    /// The address that selects one plant of one user.
    pub fn plant_url(&self, id: u128, user_id: u128) -> (r: String)
        ensures
            r@ == rest_root(self.project_url@) + "/plants"@ + "?id=eq."@ + uuid_text(id) + "&user_id=eq."@
                + uuid_text(user_id),
    {
        let id_text = uuid_to_text(id);
        let user_text = uuid_to_text(user_id);
        self.base_url().concat("?id=eq.").concat(id_text.as_str()).concat("&user_id=eq.").concat(
            user_text.as_str(),
        )
    }
}

} // verus!
