//! Guilds.

use vstd::prelude::*;
use crate::kind;
use crate::request::{HttpRequest, Method};
use crate::resource::{path_under, uri_under, Endpoint, Snowflake};

verus! {

pub struct Guild {
    pub id: Snowflake<kind::Guild>,
    pub name: String,
}

/// A guild of which only the identifier is known.
pub struct PartialGuild {
    pub id: Snowflake<kind::Guild>,
}

impl Endpoint for Snowflake<kind::Guild> {
    open spec fn path(&self) -> Seq<char> {
        path_under("/guilds/"@, self@)
    }

    fn uri(&self) -> (r: String) {
        let r = uri_under("/guilds/", self.as_int());
        assert(r@ == self.path());
        r
    }
}

/// What stands for a guild.
pub trait GuildResource {
    /// The identifier of the guild.
    spec fn guild(&self) -> u64;

    fn endpoint(&self) -> (r: Snowflake<kind::Guild>)
        ensures
            r@ == self.guild(),
    ;

    /// The request for the guild.
    fn get(&self) -> (r: HttpRequest)
        ensures
            r.is(Method::Get, path_under("/guilds/"@, self.guild()), None, Seq::empty()),
    {
        let id = self.endpoint();
        HttpRequest::get(id.uri())
    }
}

impl GuildResource for Snowflake<kind::Guild> {
    open spec fn guild(&self) -> u64 {
        self@
    }

    fn endpoint(&self) -> (r: Snowflake<kind::Guild>) {
        *self
    }
}

impl GuildResource for Guild {
    open spec fn guild(&self) -> u64 {
        self.id@
    }

    fn endpoint(&self) -> (r: Snowflake<kind::Guild>) {
        self.id
    }
}

impl GuildResource for PartialGuild {
    open spec fn guild(&self) -> u64 {
        self.id@
    }

    fn endpoint(&self) -> (r: Snowflake<kind::Guild>) {
        self.id
    }
}

} // verus!
