//! Channels.

use vstd::prelude::*;
use vstd::string::*;
use crate::kind;
use crate::request::{file_views, File, HttpRequest, Method};
use crate::resource::{path_under, uri_under, Endpoint, Snowflake};
use crate::text::{decimal_text, push_decimal};

verus! {

pub struct Channel {
    pub id: Snowflake<kind::Channel>,
    pub name: Option<String>,
}

/// A channel of which only the identifier is known.
pub struct PartialChannel {
    pub id: Snowflake<kind::Channel>,
}

/// How a channel is mentioned in a message.
pub open spec fn channel_mention(id: u64) -> Seq<char> {
    "<#"@ + decimal_text(id as nat) + ">"@
}

impl Snowflake<kind::Channel> {
    /// The text that mentions this channel in a message.
    pub fn mention(&self) -> (r: String)
        ensures
            r@ == channel_mention(self@),
    {
        let mut r = String::from_str("<#");
        push_decimal(&mut r, self.as_int());
        r.append(">");
        r
    }
}

impl Endpoint for Snowflake<kind::Channel> {
    open spec fn path(&self) -> Seq<char> {
        path_under("/channels/"@, self@)
    }

    fn uri(&self) -> (r: String) {
        let r = uri_under("/channels/", self.as_int());
        assert(r@ == self.path());
        r
    }
}

/// What stands for a channel.
pub trait ChannelResource {
    /// The identifier of the channel.
    spec fn channel(&self) -> u64;

    fn endpoint(&self) -> (r: Snowflake<kind::Channel>)
        ensures
            r@ == self.channel(),
    ;

    /// The request for the channel.
    fn get(&self) -> (r: HttpRequest)
        ensures
            r.is(Method::Get, path_under("/channels/"@, self.channel()), None, Seq::empty()),
    {
        let id = self.endpoint();
        HttpRequest::get(id.uri())
    }

    /// The request that sends the message that `body` describes, as JSON
    /// text, with its files.
    fn send_message(&self, body: String, files: Vec<File>) -> (r: HttpRequest)
        ensures
            r.is(
                Method::Post,
                path_under("/channels/"@, self.channel()) + "/messages"@,
                Some(body@),
                file_views(files@),
            ),
    {
        let id = self.endpoint();
        let mut uri = id.uri();
        uri.append("/messages");
        HttpRequest::post_attached(uri, body, files)
    }
}

impl ChannelResource for Snowflake<kind::Channel> {
    open spec fn channel(&self) -> u64 {
        self@
    }

    fn endpoint(&self) -> (r: Snowflake<kind::Channel>) {
        *self
    }
}

impl ChannelResource for Channel {
    open spec fn channel(&self) -> u64 {
        self.id@
    }

    fn endpoint(&self) -> (r: Snowflake<kind::Channel>) {
        self.id
    }
}

impl ChannelResource for PartialChannel {
    open spec fn channel(&self) -> u64 {
        self.id@
    }

    fn endpoint(&self) -> (r: Snowflake<kind::Channel>) {
        self.id
    }
}

} // verus!
