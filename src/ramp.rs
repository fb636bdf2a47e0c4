//! Ramp card and user operations.

use vstd::prelude::*;
use crate::calls::{joined, optional, param, push_optional, push_param, text, with_query, ApiCall};
use crate::executor::{Client, Method};
use crate::link::views;
use crate::text::{decimal, push_decimal};

verus! {

fn call(method: Method, path: &str, body: Option<Vec<u8>>) -> (r: ApiCall)
    ensures
        r.method == method,
        r.path@ == path@,
        r.body == body,
{
    ApiCall { method, path: text(path), body }
}

fn push_page_size(args: &mut Vec<String>, page_size: u64)
    ensures
        views(final(args)@) == views(old(args)@).push(param("page_size"@, decimal(page_size as nat))),
{
    let mut v = String::new();
    push_decimal(&mut v, page_size);
    assert(v@ =~= decimal(page_size as nat));
    push_param(args, "page_size", v.as_str());
}

/// The cards of a business.
pub struct Card {
    pub client: Client,
}

impl Card {
    pub fn new(client: Client) -> (r: Self)
        ensures
            r.client == client,
    {
        Card { client }
    }

    /// Lists cards, `page_size` at a time, from after the card `start`.
    pub fn get_cards(
        &self,
        authorization: &str,
        start: &str,
        page_size: u64,
        user_id: &str,
        card_program_id: &str,
    ) -> (r: ApiCall)
        ensures
            r.method == Method::Get,
            r.body is None,
            r.path@ == "/cards"@ + seq!['?'] + joined(
                optional("card_program_id"@, card_program_id@) + seq![
                    param("page_size"@, decimal(page_size as nat)),
                ] + optional("start"@, start@) + optional("user_id"@, user_id@),
            ),
    {
        let mut args: Vec<String> = Vec::new();
        push_optional(&mut args, "card_program_id", card_program_id);
        push_page_size(&mut args, page_size);
        push_optional(&mut args, "start", start);
        push_optional(&mut args, "user_id", user_id);
        assert(views(args@) =~= optional("card_program_id"@, card_program_id@) + seq![
            param("page_size"@, decimal(page_size as nat)),
        ] + optional("start"@, start@) + optional("user_id"@, user_id@));
        ApiCall { method: Method::Get, path: with_query(text("/cards"), &args), body: None }
    }

    /// Retrieves a card.
    pub fn get_card(&self, authorization: &str) -> (r: ApiCall)
        ensures
            r.method == Method::Get,
            r.path@ == "/cards/<id>"@,
            r.body is None,
    {
        call(Method::Get, "/cards/<id>", None)
    }

    /// Updates a card; `body` is the update, as JSON.
    pub fn patch_resources_cards(&self, authorization: &str, body: Vec<u8>) -> (r: ApiCall)
        ensures
            r.method == Method::Patch,
            r.path@ == "/cards/<id>"@,
            r.body == Some(body),
    {
        call(Method::Patch, "/cards/<id>", Some(body))
    }

    /// Requests a physical card; `body` is the request, as JSON.
    pub fn post_resources_physical(&self, authorization: &str, body: Vec<u8>) -> (r: ApiCall)
        ensures
            r.method == Method::Post,
            r.path@ == "/cards/deferred/physical"@,
            r.body == Some(body),
    {
        call(Method::Post, "/cards/deferred/physical", Some(body))
    }

    /// Requests a virtual card; `body` is the request, as JSON.
    pub fn post_resources_virtual(&self, authorization: &str, body: Vec<u8>) -> (r: ApiCall)
        ensures
            r.method == Method::Post,
            r.path@ == "/cards/deferred/virtual"@,
            r.body == Some(body),
    {
        call(Method::Post, "/cards/deferred/virtual", Some(body))
    }

    /// Terminates a card; `body` is the request, as JSON.
    pub fn post_resources_cards_termination(&self, body: Vec<u8>) -> (r: ApiCall)
        ensures
            r.method == Method::Post,
            r.path@ == "/cards/<id>/deferred/termination"@,
            r.body == Some(body),
    {
        call(Method::Post, "/cards/<id>/deferred/termination", Some(body))
    }

    /// Suspends a card; `body` is the request, as JSON.
    pub fn post_resources_cards_suspension(&self, body: Vec<u8>) -> (r: ApiCall)
        ensures
            r.method == Method::Post,
            r.path@ == "/cards/<id>/deferred/suspension"@,
            r.body == Some(body),
    {
        call(Method::Post, "/cards/<id>/deferred/suspension", Some(body))
    }

    /// Lifts the suspension of a card; `body` is the request, as JSON.
    pub fn post_resources_cards_unsuspension(&self, body: Vec<u8>) -> (r: ApiCall)
        ensures
            r.method == Method::Post,
            r.path@ == "/cards/<id>/deferred/unsuspension"@,
            r.body == Some(body),
    {
        call(Method::Post, "/cards/<id>/deferred/unsuspension", Some(body))
    }

    /// Retrieves the status of a deferred card task.
    pub fn get_resources_cards_deferred(&self, authorization: &str) -> (r: ApiCall)
        ensures
            r.method == Method::Get,
            r.path@ == "/cards/deferred/status/<id>"@,
            r.body is None,
    {
        call(Method::Get, "/cards/deferred/status/<id>", None)
    }
}

/// The users of a business.
pub struct User {
    pub client: Client,
}

impl User {
    pub fn new(client: Client) -> (r: Self)
        ensures
            r.client == client,
    {
        User { client }
    }

    /// Retrieves a user.
    pub fn get_users(&self, authorization: &str) -> (r: ApiCall)
        ensures
            r.method == Method::Get,
            r.path@ == "/users/<id>"@,
            r.body is None,
    {
        call(Method::Get, "/users/<id>", None)
    }

    /// Suspends a user; the user's cards are kept.
    pub fn delete_users(&self) -> (r: ApiCall)
        ensures
            r.method == Method::Delete,
            r.path@ == "/users/<id>"@,
            r.body is None,
    {
        call(Method::Delete, "/users/<id>", None)
    }

    /// Modifies a user; `body` is the update, as JSON.
    pub fn patch_users(&self, body: Vec<u8>) -> (r: ApiCall)
        ensures
            r.method == Method::Patch,
            r.path@ == "/users/<id>"@,
            r.body == Some(body),
    {
        call(Method::Patch, "/users/<id>", Some(body))
    }

    /// Lists users, `page_size` at a time, from after the user `start`.
    pub fn get_user(
        &self,
        authorization: &str,
        start: &str,
        page_size: u64,
        department_id: &str,
        location_id: &str,
    ) -> (r: ApiCall)
        ensures
            r.method == Method::Get,
            r.body is None,
            r.path@ == "/users"@ + seq!['?'] + joined(
                optional("department_id"@, department_id@) + optional("location_id"@, location_id@)
                    + seq![param("page_size"@, decimal(page_size as nat))] + optional("start"@, start@),
            ),
    {
        let mut args: Vec<String> = Vec::new();
        push_optional(&mut args, "department_id", department_id);
        push_optional(&mut args, "location_id", location_id);
        push_page_size(&mut args, page_size);
        push_optional(&mut args, "start", start);
        assert(views(args@) =~= optional("department_id"@, department_id@) + optional(
            "location_id"@,
            location_id@,
        ) + seq![param("page_size"@, decimal(page_size as nat))] + optional("start"@, start@));
        ApiCall { method: Method::Get, path: with_query(text("/users"), &args), body: None }
    }

    /// Invites a new user; `body` is the invitation, as JSON.
    pub fn post_users_deferred(&self, body: Vec<u8>) -> (r: ApiCall)
        ensures
            r.method == Method::Post,
            r.path@ == "/users/deferred"@,
            r.body == Some(body),
    {
        call(Method::Post, "/users/deferred", Some(body))
    }

    /// Retrieves the status of a deferred user task.
    pub fn get_users_deferred_status(&self) -> (r: ApiCall)
        ensures
            r.method == Method::Get,
            r.path@ == "/users/deferred/status/<id>"@,
            r.body is None,
    {
        call(Method::Get, "/users/deferred/status/<id>", None)
    }
}

} // verus!
