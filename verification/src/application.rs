//! The application that the bot runs as.

use vstd::prelude::*;
use vstd::string::*;
use crate::command::Commands;
use crate::guild::GuildResource;
use crate::kind;
use crate::request::{HttpRequest, Method};
use crate::resource::{Endpoint, Snowflake};

verus! {

pub struct Application {
    pub id: Snowflake<kind::Application>,
}

/// An application of which only the identifier is known.
pub struct PartialApplication {
    pub id: Snowflake<kind::Application>,
}

impl Endpoint for Snowflake<kind::Application> {
    /// A bot can only ever ask for its own application.
    open spec fn path(&self) -> Seq<char> {
        "/applications/@me"@
    }

    fn uri(&self) -> (r: String) {
        let r = String::from_str("/applications/@me");
        assert(r@ == self.path());
        r
    }
}

/// What stands for an application.
pub trait ApplicationResource {
    /// The identifier of the application.
    spec fn application(&self) -> u64;

    fn endpoint(&self) -> (r: Snowflake<kind::Application>)
        ensures
            r@ == self.application(),
    ;

    /// The commands of the application that are offered everywhere.
    fn global_commands(&self) -> (r: Commands)
        ensures
            r.application() == self.application(),
            r.guild() is None,
    {
        Commands::new(self.endpoint(), None)
    }

    /// The commands of the application that are offered in one guild.
    fn guild_commands<G: GuildResource>(&self, guild: &G) -> (r: Commands)
        ensures
            r.application() == self.application(),
            r.guild() == Some(guild.guild()),
    {
        Commands::new(self.endpoint(), Some(guild.endpoint()))
    }
}

impl ApplicationResource for Snowflake<kind::Application> {
    open spec fn application(&self) -> u64 {
        self@
    }

    fn endpoint(&self) -> (r: Snowflake<kind::Application>) {
        *self
    }
}

impl ApplicationResource for Application {
    open spec fn application(&self) -> u64 {
        self.id@
    }

    fn endpoint(&self) -> (r: Snowflake<kind::Application>) {
        self.id
    }
}

impl Application {
    /// The request for the bot's own application.
    pub fn get_request() -> (r: HttpRequest)
        ensures
            r.is(Method::Get, "/oauth2/applications/@me"@, None, Seq::empty()),
    {
        HttpRequest::get(String::from_str("/oauth2/applications/@me"))
    }

    /// The commands of this application that are offered everywhere.
    pub fn global_commands(&self) -> (r: Commands)
        ensures
            r.application() == self.id@,
            r.guild() is None,
    {
        Commands::new(self.id, None)
    }

    /// The commands of this application that are offered in one guild.
    pub fn guild_commands<G: GuildResource>(&self, guild: &G) -> (r: Commands)
        ensures
            r.application() == self.id@,
            r.guild() == Some(guild.guild()),
    {
        Commands::new(self.id, Some(guild.endpoint()))
    }
}

/// The bot's own application.
pub struct Me;

impl Me {
    /// The request for the bot's own application.
    pub fn get(&self) -> (r: HttpRequest)
        ensures
            r.is(Method::Get, "/applications/@me"@, None, Seq::empty()),
    {
        HttpRequest::get(String::from_str("/applications/@me"))
    }
}

} // verus!
