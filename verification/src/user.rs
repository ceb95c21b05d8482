//! Users.

use vstd::prelude::*;
use vstd::string::*;
use crate::kind;
use crate::request::{HttpRequest, Method};
use crate::resource::{path_under, uri_under, Endpoint, Snowflake};
use crate::text::{decimal_text, push_decimal};

verus! {

pub struct User {
    pub id: Snowflake<kind::User>,
    pub username: String,
}

/// A user of whom only the identifier is known.
pub struct PartialUser {
    pub id: Snowflake<kind::User>,
}

/// How a user is mentioned in a message.
pub open spec fn user_mention(id: u64) -> Seq<char> {
    "<@"@ + decimal_text(id as nat) + ">"@
}

impl Snowflake<kind::User> {
    /// The text that mentions this user in a message.
    pub fn mention(&self) -> (r: String)
        ensures
            r@ == user_mention(self@),
    {
        let mut r = String::from_str("<@");
        push_decimal(&mut r, self.as_int());
        r.append(">");
        r
    }
}

impl Endpoint for Snowflake<kind::User> {
    open spec fn path(&self) -> Seq<char> {
        path_under("/users/"@, self@)
    }

    fn uri(&self) -> (r: String) {
        let r = uri_under("/users/", self.as_int());
        assert(r@ == self.path());
        r
    }
}

/// What is to change of a user.
pub struct PatchUser {
    pub username: Option<String>,
}

impl PatchUser {
    /// The same change, with the user name set to this.
    pub fn username(self, username: String) -> (r: Self)
        ensures
            r.username == Some(username),
    {
        PatchUser { username: Some(username) }
    }
}

impl Default for PatchUser {
    fn default() -> (r: Self)
        ensures
            r.username is None,
    {
        PatchUser { username: None }
    }
}

/// What stands for a user.
pub trait UserResource {
    /// The identifier of the user.
    spec fn user(&self) -> u64;

    fn endpoint(&self) -> (r: Snowflake<kind::User>)
        ensures
            r@ == self.user(),
    ;

    /// The request for the user.
    fn get(&self) -> (r: HttpRequest)
        ensures
            r.is(Method::Get, path_under("/users/"@, self.user()), None, Seq::empty()),
    {
        let id = self.endpoint();
        HttpRequest::get(id.uri())
    }

    /// The request that opens a direct channel to the user. The body names
    /// the user as the recipient.
    fn create_dm(&self) -> (r: HttpRequest)
        ensures
            r.is(
                Method::Post,
                "/users/@me/channels"@,
                Some("{\"recipient_id\":\""@ + decimal_text(self.user() as nat) + "\"}"@),
                Seq::empty(),
            ),
    {
        let id = self.endpoint();
        let mut body = String::from_str("{\"recipient_id\":\"");
        push_decimal(&mut body, id.as_int());
        body.append("\"}");
        HttpRequest::post(String::from_str("/users/@me/channels"), body)
    }
}

impl UserResource for Snowflake<kind::User> {
    open spec fn user(&self) -> u64 {
        self@
    }

    fn endpoint(&self) -> (r: Snowflake<kind::User>) {
        *self
    }
}

impl UserResource for User {
    open spec fn user(&self) -> u64 {
        self.id@
    }

    fn endpoint(&self) -> (r: Snowflake<kind::User>) {
        self.id
    }
}

impl UserResource for PartialUser {
    open spec fn user(&self) -> u64 {
        self.id@
    }

    fn endpoint(&self) -> (r: Snowflake<kind::User>) {
        self.id
    }
}

/// The bot's own user.
pub struct Me;

impl Me {
    /// The request for the bot's own user.
    pub fn get(&self) -> (r: HttpRequest)
        ensures
            r.is(Method::Get, "/users/@me"@, None, Seq::empty()),
    {
        HttpRequest::get(String::from_str("/users/@me"))
    }

    /// The request that changes the bot's own user as `body` says, in JSON text.
    pub fn patch(&self, body: String) -> (r: HttpRequest)
        ensures
            r.is(Method::Patch, "/users/@me"@, Some(body@), Seq::empty()),
    {
        HttpRequest::patch(String::from_str("/users/@me"), body)
    }

    /// The request for the guilds that the bot is in.
    pub fn get_guilds(&self) -> (r: HttpRequest)
        ensures
            r.is(Method::Get, "/users/@me/guilds"@, None, Seq::empty()),
    {
        HttpRequest::get(String::from_str("/users/@me/guilds"))
    }
}

} // verus!
