//! Interactions: what a user did with a command, a button, a menu or a
//! dialog, and the answers that can be given to it.

use vstd::prelude::*;
use vstd::string::*;
use crate::command::CommandIdentifier;
use crate::json::{
    json_parsed, json_view, member, parse, read_text, read_u64, slot_text, slot_u64, Slot,
};
use crate::kind;
use crate::message::{
    collect_files, files_of, ActionRow, CreateAttachment, Embed, Message, PartialAttachment,
};
use crate::request::{file_views, Attachments, File, FileView, HttpRequest, IndexedOr, Method};
use crate::resource::Snowflake;
use crate::text::{decimal_text, parse_decimal, parsed_decimal, push_decimal};
use crate::user::User;

verus! {

/// What may be said of a reply.
#[derive(Clone, Copy, Debug, PartialEq, Eq, Structural)]
pub enum ReplyFlag {
    /// Only the user who is answered sees the reply.
    Ephemeral,
    /// Links in the reply are not unfolded.
    SuppressEmbeds,
}

impl ReplyFlag {
    /// The bit that stands for this flag.
    pub open spec fn bit(self) -> u32 {
        match self {
            ReplyFlag::Ephemeral => 64,
            ReplyFlag::SuppressEmbeds => 4,
        }
    }

    pub fn to_bit(self) -> (r: u32)
        ensures
            r == self.bit(),
    {
        match self {
            ReplyFlag::Ephemeral => 64,
            ReplyFlag::SuppressEmbeds => 4,
        }
    }
}

/// A set of reply flags.
#[derive(Clone, Copy, Debug, PartialEq, Eq, Structural)]
pub struct ReplyFlags {
    pub ephemeral: bool,
    pub suppress_embeds: bool,
}

impl ReplyFlags {
    /// Whether a flag is in the set.
    pub open spec fn has(self, flag: ReplyFlag) -> bool {
        match flag {
            ReplyFlag::Ephemeral => self.ephemeral,
            ReplyFlag::SuppressEmbeds => self.suppress_embeds,
        }
    }

    /// The number that the set is sent as: the sum of the bits of its flags.
    pub open spec fn mask(self) -> u32 {
        ((if self.ephemeral {
            64int
        } else {
            0int
        }) + (if self.suppress_embeds {
            4int
        } else {
            0int
        })) as u32
    }

    /// The empty set.
    pub fn empty() -> (r: Self)
        ensures
            !r.ephemeral,
            !r.suppress_embeds,
    {
        ReplyFlags { ephemeral: false, suppress_embeds: false }
    }

    /// The set of one flag.
    pub fn from(flag: ReplyFlag) -> (r: Self)
        ensures
            forall|f: ReplyFlag| r.has(f) == (f == flag),
    {
        ReplyFlags::empty().with(flag)
    }

    /// The same set with one flag more.
    pub fn with(self, flag: ReplyFlag) -> (r: Self)
        ensures
            forall|f: ReplyFlag| r.has(f) == (self.has(f) || f == flag),
    {
        match flag {
            ReplyFlag::Ephemeral => ReplyFlags { ephemeral: true, suppress_embeds: self.suppress_embeds },
            ReplyFlag::SuppressEmbeds => ReplyFlags { ephemeral: self.ephemeral, suppress_embeds: true },
        }
    }

    pub fn contains(&self, flag: ReplyFlag) -> (r: bool)
        ensures
            r == self.has(flag),
    {
        match flag {
            ReplyFlag::Ephemeral => self.ephemeral,
            ReplyFlag::SuppressEmbeds => self.suppress_embeds,
        }
    }

    pub fn is_empty(&self) -> (r: bool)
        ensures
            r == (forall|f: ReplyFlag| !self.has(f)),
    {
        assert(!self.ephemeral && !self.suppress_embeds ==> forall|f: ReplyFlag| !self.has(f));
        assert(self.ephemeral ==> self.has(ReplyFlag::Ephemeral));
        assert(self.suppress_embeds ==> self.has(ReplyFlag::SuppressEmbeds));
        !self.ephemeral && !self.suppress_embeds
    }

    /// The number that the set is sent as.
    pub fn bits(&self) -> (r: u32)
        ensures
            r == self.mask(),
    {
        let a: u32 = if self.ephemeral {
            64
        } else {
            0
        };
        let b: u32 = if self.suppress_embeds {
            4
        } else {
            0
        };
        a + b
    }
}

/// How much text a text field takes.
#[derive(Clone, Copy, Debug, PartialEq, Eq, Structural)]
pub enum TextStyle {
    Short,
    Paragraph,
}

impl TextStyle {
    /// The number that stands for this style.
    pub open spec fn code(self) -> u8 {
        match self {
            TextStyle::Short => 1,
            TextStyle::Paragraph => 2,
        }
    }

    pub fn to_code(self) -> (r: u8)
        ensures
            r == self.code(),
    {
        match self {
            TextStyle::Short => 1,
            TextStyle::Paragraph => 2,
        }
    }
}

/// The client that answers interactions: it needs no token of the bot and
/// is bound by no rate limit of the bot.
#[derive(Clone, Copy, Debug)]
pub struct Webhook;

/// The right to answer one interaction.
#[derive(Debug)]
pub struct InteractionToken {
    pub id: Snowflake<kind::Interaction>,
    pub token: String,
    pub application_id: Snowflake<kind::Application>,
}

/// The right to answer one interaction that came from a message.
#[derive(Debug)]
pub struct MessageInteractionToken {
    pub id: Snowflake<kind::Interaction>,
    pub token: String,
    pub application_id: Snowflake<kind::Application>,
}

/// Where the answer to an interaction is sent.
pub open spec fn callback_path(id: u64, token: Seq<char>) -> Seq<char> {
    "/interactions/"@ + decimal_text(id as nat) + "/"@ + token + "/callback"@
}

/// Where what follows the answer to an interaction is sent.
pub open spec fn webhook_path(application: u64, token: Seq<char>) -> Seq<char> {
    "/webhooks/"@ + decimal_text(application as nat) + "/"@ + token
}

/// Where a message that answered an interaction is found: the first answer
/// under `@original`, a later one under its number.
pub open spec fn response_path(application: u64, token: Seq<char>, message: Option<u64>) -> Seq<char> {
    webhook_path(application, token) + "/messages/"@ + (match message {
        Some(m) => decimal_text(m as nat),
        None => "@original"@,
    })
}

/// The body of an answer of a kind, around its data in JSON text.
pub open spec fn response_text(typ: u8, data: Seq<char>) -> Seq<char> {
    "{\"type\":"@ + decimal_text(typ as nat) + ",\"data\":"@ + data + "}"@
}

/// Writes where the answer to an interaction is sent.
pub fn callback_uri(id: u64, token: &str) -> (r: String)
    ensures
        r@ == callback_path(id, token@),
{
    let mut r = String::from_str("/interactions/");
    push_decimal(&mut r, id);
    r.append("/");
    r.append(token);
    r.append("/callback");
    r
}

/// Writes the body of an answer.
pub fn response_body(typ: u8, data: &str) -> (r: String)
    ensures
        r@ == response_text(typ, data@),
{
    let mut r = String::from_str("{\"type\":");
    push_decimal(&mut r, typ as u64);
    r.append(",\"data\":");
    r.append(data);
    r.append("}");
    r
}

/// A message that answered an interaction.
#[derive(Debug)]
pub struct InteractionResponseIdentifier {
    pub application_id: Snowflake<kind::Application>,
    pub token: String,
    pub message: Option<Snowflake<kind::Message>>,
}

impl InteractionResponseIdentifier {
    /// The number of the message, unless it is the first answer.
    pub open spec fn number(self) -> Option<u64> {
        match self.message {
            Some(m) => Some(m@),
            None => None,
        }
    }

    /// The path of the message.
    pub open spec fn path(self) -> Seq<char> {
        response_path(self.application_id@, self.token@, self.number())
    }

    pub fn uri(&self) -> (r: String)
        ensures
            r@ == self.path(),
    {
        let mut r = String::from_str("/webhooks/");
        push_decimal(&mut r, self.application_id.as_int());
        r.append("/");
        r.append(self.token.as_str());
        r.append("/messages/");
        match self.message {
            Some(m) => {
                push_decimal(&mut r, m.as_int());
            },
            None => {
                r.append("@original");
            },
        }
        assert(r@ =~= self.path());
        r
    }

    /// The request for the message.
    pub fn get(&self) -> (r: HttpRequest)
        ensures
            r.is(Method::Get, self.path(), None, Seq::empty()),
    {
        HttpRequest::get(self.uri())
    }

    /// The request that changes the message as `body` says, in JSON text.
    pub fn patch(&self, body: String) -> (r: HttpRequest)
        ensures
            r.is(Method::Patch, self.path(), Some(body@), Seq::empty()),
    {
        HttpRequest::patch(self.uri(), body)
    }

    /// The request that deletes the message.
    pub fn delete(self) -> (r: HttpRequest)
        ensures
            r.is(Method::Delete, self.path(), None, Seq::empty()),
    {
        HttpRequest::delete(self.uri())
    }

    /// The request that sends one more message after the answer, and the
    /// identifier under which that message will be known once its number is
    /// filled in.
    pub fn followup(&self, body: String) -> (r: (HttpRequest, InteractionResponseIdentifier))
        ensures
            r.0.is(
                Method::Post,
                webhook_path(self.application_id@, self.token@),
                Some(body@),
                Seq::empty(),
            ),
            r.1.application_id == self.application_id,
            r.1.token@ == self.token@,
            r.1.message is None,
    {
        let mut uri = String::from_str("/webhooks/");
        push_decimal(&mut uri, self.application_id.as_int());
        uri.append("/");
        uri.append(self.token.as_str());
        (
            HttpRequest::post(uri, body),
            InteractionResponseIdentifier {
                application_id: self.application_id,
                token: self.token.clone(),
                message: None,
            },
        )
    }

    /// The same identifier, for the message with this number.
    pub fn for_message(self, message: Snowflake<kind::Message>) -> (r: Self)
        ensures
            r.application_id == self.application_id,
            r.token == self.token,
            r.message == Some(message),
    {
        InteractionResponseIdentifier {
            application_id: self.application_id,
            token: self.token,
            message: Some(message),
        }
    }
}

/// The kinds of answer.
pub const REPLY: u8 = 4;

pub const UPDATE: u8 = 7;

pub const MODAL: u8 = 9;

impl InteractionToken {
    /// Where the answer is sent. The token is used up.
    pub fn uri_response(self) -> (r: String)
        ensures
            r@ == callback_path(self.id@, self.token@),
    {
        callback_uri(self.id.as_int(), self.token.as_str())
    }

    /// The request that answers with a message, which `data` describes in
    /// JSON text, and the identifier of that message.
    pub fn reply(self, data: &str) -> (r: (HttpRequest, InteractionResponseIdentifier))
        ensures
            r.0.is(
                Method::Post,
                callback_path(self.id@, self.token@),
                Some(response_text(REPLY, data@)),
                Seq::empty(),
            ),
            r.1.application_id == self.application_id,
            r.1.token@ == self.token@,
            r.1.message is None,
    {
        let id = InteractionResponseIdentifier {
            application_id: self.application_id,
            token: self.token.clone(),
            message: None,
        };
        (HttpRequest::post(self.uri_response(), response_body(REPLY, data)), id)
    }

    /// The request that answers with a dialog, which `data` describes in
    /// JSON text.
    pub fn modal(self, data: &str) -> (r: HttpRequest)
        ensures
            r.is(
                Method::Post,
                callback_path(self.id@, self.token@),
                Some(response_text(MODAL, data@)),
                Seq::empty(),
            ),
    {
        HttpRequest::post(self.uri_response(), response_body(MODAL, data))
    }
}

impl MessageInteractionToken {
    /// Where the answer is sent. The token is used up.
    pub fn uri_response(self) -> (r: String)
        ensures
            r@ == callback_path(self.id@, self.token@),
    {
        callback_uri(self.id.as_int(), self.token.as_str())
    }

    /// The request that answers with a message.
    pub fn reply(self, data: &str) -> (r: (HttpRequest, InteractionResponseIdentifier))
        ensures
            r.0.is(
                Method::Post,
                callback_path(self.id@, self.token@),
                Some(response_text(REPLY, data@)),
                Seq::empty(),
            ),
            r.1.application_id == self.application_id,
            r.1.token@ == self.token@,
            r.1.message is None,
    {
        let id = InteractionResponseIdentifier {
            application_id: self.application_id,
            token: self.token.clone(),
            message: None,
        };
        (HttpRequest::post(self.uri_response(), response_body(REPLY, data)), id)
    }

    /// The request that answers with a dialog.
    pub fn modal(self, data: &str) -> (r: HttpRequest)
        ensures
            r.is(
                Method::Post,
                callback_path(self.id@, self.token@),
                Some(response_text(MODAL, data@)),
                Seq::empty(),
            ),
    {
        HttpRequest::post(self.uri_response(), response_body(MODAL, data))
    }

    /// The request that answers by changing the message that the interaction
    /// came from, with the files that come new.
    pub fn update(self, data: &str, files: Vec<File>) -> (r: (
        HttpRequest,
        InteractionResponseIdentifier,
    ))
        ensures
            r.0.is(
                Method::Post,
                callback_path(self.id@, self.token@),
                Some(response_text(UPDATE, data@)),
                file_views(files@),
            ),
            r.1.application_id == self.application_id,
            r.1.token@ == self.token@,
            r.1.message is None,
    {
        let id = InteractionResponseIdentifier {
            application_id: self.application_id,
            token: self.token.clone(),
            message: None,
        };
        (HttpRequest::post_attached(self.uri_response(), response_body(UPDATE, data), files), id)
    }

    /// The request that answers by leaving the message as it is.
    pub fn deferred_update(self) -> (r: (HttpRequest, InteractionResponseIdentifier))
        ensures
            r.0.is(
                Method::Post,
                callback_path(self.id@, self.token@),
                Some(response_text(UPDATE, "null"@)),
                Seq::empty(),
            ),
            r.1.application_id == self.application_id,
            r.1.token@ == self.token@,
            r.1.message is None,
    {
        let id = InteractionResponseIdentifier {
            application_id: self.application_id,
            token: self.token.clone(),
            message: None,
        };
        (HttpRequest::post(self.uri_response(), response_body(UPDATE, "null")), id)
    }
}

/// A reply to an interaction.
pub struct CreateReply {
    pub content: Option<String>,
    pub embeds: Vec<Embed>,
    pub components: Vec<ActionRow>,
    pub flags: ReplyFlags,
}

impl Default for CreateReply {
    fn default() -> (r: Self)
        ensures
            r.content is None,
            r.embeds@.len() == 0,
            r.components@.len() == 0,
            r.flags == (ReplyFlags { ephemeral: false, suppress_embeds: false }),
    {
        CreateReply {
            content: None,
            embeds: Vec::new(),
            components: Vec::new(),
            flags: ReplyFlags::empty(),
        }
    }
}

impl CreateReply {
    pub fn content(self, content: String) -> (r: Self)
        ensures
            r == (CreateReply { content: Some(content), ..self }),
    {
        CreateReply { content: Some(content), ..self }
    }

    pub fn embeds(self, embeds: Vec<Embed>) -> (r: Self)
        ensures
            r == (CreateReply { embeds, ..self }),
    {
        CreateReply { embeds, ..self }
    }

    pub fn components(self, components: Vec<ActionRow>) -> (r: Self)
        ensures
            r == (CreateReply { components, ..self }),
    {
        CreateReply { components, ..self }
    }

    pub fn flags(self, flags: ReplyFlags) -> (r: Self)
        ensures
            r == (CreateReply { flags, ..self }),
    {
        CreateReply { flags, ..self }
    }
}

/// A change to the message that an interaction came from. Embeds and
/// components are sent even when empty, so that they can be taken away.
pub struct CreateUpdate {
    pub content: Option<String>,
    pub embeds: Vec<Embed>,
    pub components: Vec<ActionRow>,
    pub attachments: IndexedOr<CreateAttachment, PartialAttachment>,
}

impl Default for CreateUpdate {
    fn default() -> (r: Self)
        ensures
            r.content is None,
            r.embeds@.len() == 0,
            r.components@.len() == 0,
            r.attachments.0@.len() == 0,
            r.attachments.1@.len() == 0,
    {
        CreateUpdate {
            content: None,
            embeds: Vec::new(),
            components: Vec::new(),
            attachments: IndexedOr::new(),
        }
    }
}

impl CreateUpdate {
    pub fn content(self, content: String) -> (r: Self)
        ensures
            r == (CreateUpdate { content: Some(content), ..self }),
    {
        CreateUpdate { content: Some(content), ..self }
    }

    pub fn embeds(self, embeds: Vec<Embed>) -> (r: Self)
        ensures
            r == (CreateUpdate { embeds, ..self }),
    {
        CreateUpdate { embeds, ..self }
    }

    pub fn components(self, components: Vec<ActionRow>) -> (r: Self)
        ensures
            r == (CreateUpdate { components, ..self }),
    {
        CreateUpdate { components, ..self }
    }

    pub fn attachments(self, attachments: IndexedOr<CreateAttachment, PartialAttachment>) -> (r: Self)
        ensures
            r == (CreateUpdate { attachments, ..self }),
    {
        CreateUpdate { attachments, ..self }
    }
}

impl Attachments for CreateUpdate {
    open spec fn files(&self) -> Seq<FileView> {
        files_of(self.attachments.0@)
    }

    fn attachments(&self) -> (r: Vec<File>) {
        let r = collect_files(&self.attachments.0);
        assert(file_views(r@) == self.files());
        r
    }
}

/// What kind of thing a user did.
#[derive(Clone, Copy, Debug, PartialEq, Eq, Structural)]
pub enum InteractionKind {
    /// A command was called.
    Command,
    /// A button was pressed or a menu entry picked.
    Component,
    /// A dialog was filled in that a command had opened.
    Modal,
    /// A dialog was filled in that a message had opened.
    MessageModal,
}

/// The kind of the interaction that a payload describes: its `type` is 2 for
/// a command, 3 for a component and 5 for a dialog, which belongs to a message
/// when the payload has a member `message`. Other payloads describe none.
pub open spec fn kind_of(payload: Seq<char>) -> Option<InteractionKind> {
    match json_parsed(payload) {
        None => None,
        Some(doc) => match slot_u64(doc, "type"@) {
            Slot::Holds(n) => if n == 2 {
                Some(InteractionKind::Command)
            } else if n == 3 {
                Some(InteractionKind::Component)
            } else if n == 5 {
                if doc.member("message"@) is Some {
                    Some(InteractionKind::MessageModal)
                } else {
                    Some(InteractionKind::Modal)
                }
            } else {
                None
            },
            _ => None,
        },
    }
}

/// Tells the kind of the interaction that a payload describes.
pub fn classify(payload: &str) -> (r: Option<InteractionKind>)
    ensures
        r == kind_of(payload@),
{
    match parse(payload) {
        Err(_) => None,
        Ok(doc) => match read_u64(&doc, "type") {
            Slot::Holds(n) => {
                if n == 2 {
                    Some(InteractionKind::Command)
                } else if n == 3 {
                    Some(InteractionKind::Component)
                } else if n == 5 {
                    if member(&doc, "message").is_some() {
                        Some(InteractionKind::MessageModal)
                    } else {
                        Some(InteractionKind::Modal)
                    }
                } else {
                    None
                }
            },
            _ => None,
        },
    }
}

/// An interaction with its data.
pub struct Interaction<T> {
    pub data: T,
    pub token: InteractionToken,
    pub user: User,
    pub channel_id: Snowflake<kind::Channel>,
}

/// An interaction that came from a message, with its data.
pub struct MessageInteraction<T> {
    pub data: T,
    pub token: MessageInteractionToken,
    pub user: User,
    pub channel_id: Snowflake<kind::Channel>,
    pub message: Message,
}

/// What a command was aimed at.
#[derive(Debug)]
pub enum CommandTarget {
    ChatInput,
    User(Snowflake<kind::User>),
    Message(Snowflake<kind::Message>),
}

impl CommandTarget {
    /// The target that the data of a command names: its `type` is 1 for a
    /// chat command, which has none, 2 for a user and 3 for a message, whose
    /// identifier `target_id` then holds as a text. Other data name none.
    pub open spec fn named(data: Seq<char>) -> Option<(u64, Option<u64>)> {
        match json_parsed(data) {
            None => None,
            Some(doc) => match slot_u64(doc, "type"@) {
                Slot::Holds(n) => if n == 1 {
                    Some((1u64, None))
                } else if n == 2 || n == 3 {
                    match slot_text(doc, "target_id"@) {
                        Slot::Holds(id) => match parsed_decimal(id) {
                            Some(id) => Some((n, Some(id))),
                            None => None,
                        },
                        _ => None,
                    }
                } else {
                    None
                },
                _ => None,
            },
        }
    }

    /// The kind of this target and the identifier that it holds.
    pub open spec fn parts(self) -> (u64, Option<u64>) {
        match self {
            CommandTarget::ChatInput => (1, None),
            CommandTarget::User(id) => (2, Some(id@)),
            CommandTarget::Message(id) => (3, Some(id@)),
        }
    }

    /// Reads the target that the data of a command names.
    pub fn read(data: &str) -> (r: Option<CommandTarget>)
        ensures
            match r {
                Some(target) => CommandTarget::named(data@) == Some(target.parts()),
                None => CommandTarget::named(data@) is None,
            },
    {
        match parse(data) {
            Err(_) => None,
            Ok(doc) => match read_u64(&doc, "type") {
                Slot::Holds(n) => {
                    if n == 1 {
                        Some(CommandTarget::ChatInput)
                    } else if n == 2 || n == 3 {
                        match read_text(&doc, "target_id") {
                            Slot::Holds(id) => match parse_decimal(id.as_str()) {
                                Some(id) => {
                                    if n == 2 {
                                        Some(CommandTarget::User(Snowflake::new(id)))
                                    } else {
                                        Some(CommandTarget::Message(Snowflake::new(id)))
                                    }
                                },
                                None => None,
                            },
                            _ => None,
                        }
                    } else {
                        None
                    }
                },
                _ => None,
            },
        }
    }
}

/// The value that a user gave for an option of a command.
pub struct ParamValue {
    pub name: String,
    pub value: serde_json::Value,
    pub options: Vec<ParamValue>,
}

impl ParamValue {
    /// The value, where it is a text.
    pub fn as_string(&self) -> (r: Option<&str>)
        ensures
            match r {
                Some(s) => json_view(self.value).as_text() == Some(s@),
                None => json_view(self.value).as_text() is None,
            },
    {
        self.value.as_str()
    }

    /// The value, where it is a whole number.
    pub fn as_integer(&self) -> (r: Option<i64>)
        ensures
            r == json_view(self.value).as_i64(),
    {
        self.value.as_i64()
    }

    /// The value, where it is a truth value.
    pub fn as_bool(&self) -> (r: Option<bool>)
        ensures
            r == json_view(self.value).as_bool(),
    {
        self.value.as_bool()
    }
}

/// A command that a user called.
pub struct ApplicationCommand {
    pub command: CommandIdentifier,
    pub name: String,
    pub options: Vec<ParamValue>,
    pub target: CommandTarget,
}

/// An entry that a user picked in a menu.
#[derive(Debug)]
pub struct SelectValue {
    pub label: String,
    pub value: String,
    pub description: Option<String>,
    pub default: bool,
}

/// A button that a user pressed, or a menu that a user picked from.
#[derive(Debug)]
pub struct MessageComponent {
    pub custom_id: String,
    pub values: Vec<String>,
}

/// A line or a paragraph for a user to fill in.
#[derive(Debug)]
pub struct TextComponent {
    pub custom_id: String,
    pub style: TextStyle,
    pub label: String,
    pub min_length: Option<usize>,
    pub max_length: Option<usize>,
    pub required: bool,
    pub value: Option<String>,
    pub placeholder: Option<String>,
}

impl TextComponent {
    /// A text field that has to be filled in, of any length and with
    /// nothing in it.
    pub fn new(id: &str, style: TextStyle, label: &str) -> (r: Self)
        ensures
            r.custom_id@ == id@,
            r.style == style,
            r.label@ == label@,
            r.min_length is None,
            r.max_length is None,
            r.required,
            r.value is None,
            r.placeholder is None,
    {
        TextComponent {
            custom_id: String::from_str(id),
            style,
            label: String::from_str(label),
            min_length: None,
            max_length: None,
            required: true,
            value: None,
            placeholder: None,
        }
    }

    pub fn min_length(self, min_length: usize) -> (r: Self)
        ensures
            r == (TextComponent { min_length: Some(min_length), ..self }),
    {
        TextComponent { min_length: Some(min_length), ..self }
    }

    pub fn max_length(self, max_length: usize) -> (r: Self)
        ensures
            r == (TextComponent { max_length: Some(max_length), ..self }),
    {
        TextComponent { max_length: Some(max_length), ..self }
    }

    pub fn required(self, required: bool) -> (r: Self)
        ensures
            r == (TextComponent { required, ..self }),
    {
        TextComponent { required, ..self }
    }

    pub fn value(self, value: String) -> (r: Self)
        ensures
            r == (TextComponent { value: Some(value), ..self }),
    {
        TextComponent { value: Some(value), ..self }
    }

    pub fn placeholder(self, placeholder: String) -> (r: Self)
        ensures
            r == (TextComponent { placeholder: Some(placeholder), ..self }),
    {
        TextComponent { placeholder: Some(placeholder), ..self }
    }
}

/// Whether a text field is sent without saying that it is required: being
/// required is what is assumed.
pub fn is_true(b: &bool) -> (r: bool)
    ensures
        r == *b,
{
    *b
}

/// A row of a dialog: it holds one text field.
#[derive(Debug)]
pub struct TextActionRow {
    pub component: TextComponent,
}

impl TextActionRow {
    pub fn new(text: TextComponent) -> (r: Self)
        ensures
            r.component == text,
    {
        TextActionRow { component: text }
    }
}

/// A dialog.
#[derive(Debug)]
pub struct Modal {
    pub custom_id: String,
    pub title: String,
    pub components: Vec<TextActionRow>,
}

/// What a user wrote into one text field.
#[derive(Debug)]
pub struct TextValue {
    pub custom_id: String,
    pub value: String,
}

/// A row of a dialog that was filled in.
#[derive(Debug)]
pub struct TextValueActionRow {
    pub component: TextValue,
}

/// A dialog that was filled in.
#[derive(Debug)]
pub struct ModalSubmit {
    pub custom_id: String,
    pub components: Vec<TextValueActionRow>,
}

/// Anything that a user did.
pub enum AnyInteraction {
    Command(Interaction<ApplicationCommand>),
    Component(MessageInteraction<MessageComponent>),
    Modal(Interaction<ModalSubmit>),
    MessageModal(MessageInteraction<ModalSubmit>),
}

impl AnyInteraction {
    /// Which kind of thing the user did.
    pub fn kind(&self) -> (r: InteractionKind)
        ensures
            r == match self {
                AnyInteraction::Command(_) => InteractionKind::Command,
                AnyInteraction::Component(_) => InteractionKind::Component,
                AnyInteraction::Modal(_) => InteractionKind::Modal,
                AnyInteraction::MessageModal(_) => InteractionKind::MessageModal,
            },
    {
        match self {
            AnyInteraction::Command(_) => InteractionKind::Command,
            AnyInteraction::Component(_) => InteractionKind::Component,
            AnyInteraction::Modal(_) => InteractionKind::Modal,
            AnyInteraction::MessageModal(_) => InteractionKind::MessageModal,
        }
    }
}

/// What carries the right to answer an interaction.
pub trait InteractionResource: Sized {
    /// The number of the interaction.
    spec fn interaction(&self) -> u64;

    fn token(self) -> (r: InteractionToken)
        ensures
            r.id@ == self.interaction(),
    ;
}

impl InteractionResource for InteractionToken {
    open spec fn interaction(&self) -> u64 {
        self.id@
    }

    fn token(self) -> (r: InteractionToken) {
        self
    }
}

impl<T> InteractionResource for Interaction<T> {
    open spec fn interaction(&self) -> u64 {
        self.token.id@
    }

    fn token(self) -> (r: InteractionToken) {
        self.token
    }
}

/// What carries the right to answer an interaction that came from a message.
pub trait MessageInteractionResource: Sized {
    /// The number of the interaction.
    spec fn interaction(&self) -> u64;

    fn token(self) -> (r: MessageInteractionToken)
        ensures
            r.id@ == self.interaction(),
    ;
}

impl MessageInteractionResource for MessageInteractionToken {
    open spec fn interaction(&self) -> u64 {
        self.id@
    }

    fn token(self) -> (r: MessageInteractionToken) {
        self
    }
}

impl<T> MessageInteractionResource for MessageInteraction<T> {
    open spec fn interaction(&self) -> u64 {
        self.token.id@
    }

    fn token(self) -> (r: MessageInteractionToken) {
        self.token
    }
}

} // verus!
