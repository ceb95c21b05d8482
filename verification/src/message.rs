//! Messages and what they are made of: embeds, rows of buttons and menus,
//! and files.

use vstd::prelude::*;
use vstd::string::*;
use crate::json::{json_quoted, quote};
use crate::kind;
use crate::request::{
    file_views, Attachments, File, FileView, HttpRequest, Indexed, IndexedOr, Method,
};
use crate::resource::{Endpoint, Snowflake};
use crate::text::{decimal_text, push_decimal};
use crate::user::PartialUser;

verus! {

/// One message in one channel.
#[derive(Clone, Copy)]
pub struct MessageIdentifier {
    channel_id: Snowflake<kind::Channel>,
    message_id: Snowflake<kind::Message>,
}

/// One message in one channel of one guild.
#[derive(Clone, Copy)]
pub struct MessageLink {
    guild_id: Snowflake<kind::Guild>,
    channel_id: Snowflake<kind::Channel>,
    message_id: Snowflake<kind::Message>,
}

/// The path of a message.
pub open spec fn message_path(channel: u64, message: u64) -> Seq<char> {
    "/channels/"@ + decimal_text(channel as nat) + "/messages/"@ + decimal_text(message as nat)
}

/// The address at which a person finds a message.
pub open spec fn link_text(guild: u64, channel: u64, message: u64) -> Seq<char> {
    "https://discord.com/channels/"@ + decimal_text(guild as nat) + "/"@ + decimal_text(
        channel as nat,
    ) + "/"@ + decimal_text(message as nat)
}

impl MessageIdentifier {
    pub closed spec fn channel(self) -> u64 {
        self.channel_id@
    }

    pub closed spec fn message(self) -> u64 {
        self.message_id@
    }

    pub fn new(channel: Snowflake<kind::Channel>, message: Snowflake<kind::Message>) -> (r: Self)
        ensures
            r.channel() == channel@,
            r.message() == message@,
    {
        MessageIdentifier { channel_id: channel, message_id: message }
    }

    /// The identifier of the message.
    pub fn snowflake(&self) -> (r: Snowflake<kind::Message>)
        ensures
            r@ == self.message(),
    {
        self.message_id
    }

    /// The identifier of the channel.
    pub fn channel_id(&self) -> (r: Snowflake<kind::Channel>)
        ensures
            r@ == self.channel(),
    {
        self.channel_id
    }

    /// The link to this message, for the guild that its channel lies in.
    pub fn link_in(&self, guild: Snowflake<kind::Guild>) -> (r: MessageLink)
        ensures
            r.guild() == guild@,
            r.channel() == self.channel(),
            r.message_number() == self.message(),
    {
        MessageLink { guild_id: guild, channel_id: self.channel_id, message_id: self.message_id }
    }
}

impl Endpoint for MessageIdentifier {
    open spec fn path(&self) -> Seq<char> {
        message_path(self.channel(), self.message())
    }

    fn uri(&self) -> (r: String) {
        let mut r = String::from_str("/channels/");
        push_decimal(&mut r, self.channel_id.as_int());
        r.append("/messages/");
        push_decimal(&mut r, self.message_id.as_int());
        assert(r@ =~= self.path());
        r
    }
}

impl MessageLink {
    pub closed spec fn guild(self) -> u64 {
        self.guild_id@
    }

    pub closed spec fn channel(self) -> u64 {
        self.channel_id@
    }

    pub closed spec fn message_number(self) -> u64 {
        self.message_id@
    }

    /// The message that the link leads to.
    pub fn message(&self) -> (r: MessageIdentifier)
        ensures
            r.channel() == self.channel(),
            r.message() == self.message_number(),
    {
        MessageIdentifier { channel_id: self.channel_id, message_id: self.message_id }
    }

    /// The address at which a person finds the message.
    pub fn to_text(&self) -> (r: String)
        ensures
            r@ == link_text(self.guild(), self.channel(), self.message_number()),
    {
        let mut r = String::from_str("https://discord.com/channels/");
        push_decimal(&mut r, self.guild_id.as_int());
        r.append("/");
        push_decimal(&mut r, self.channel_id.as_int());
        r.append("/");
        push_decimal(&mut r, self.message_id.as_int());
        r
    }
}

/// Who an embed is by.
#[derive(Debug)]
pub struct Author {
    pub name: String,
}

impl Author {
    pub fn new(name: &str) -> (r: Self)
        ensures
            r.name@ == name@,
    {
        Author { name: String::from_str(name) }
    }
}

/// A titled piece of text in an embed.
#[derive(Debug)]
pub struct Field {
    pub name: String,
    pub value: String,
    pub inline: bool,
}

impl Field {
    /// A field that takes a line of its own.
    pub fn new(name: &str, value: &str) -> (r: Self)
        ensures
            r.name@ == name@,
            r.value@ == value@,
            !r.inline,
    {
        Field { name: String::from_str(name), value: String::from_str(value), inline: false }
    }

    /// A field that may share its line with others.
    pub fn inlined(name: &str, value: &str) -> (r: Self)
        ensures
            r.name@ == name@,
            r.value@ == value@,
            r.inline,
    {
        Field { name: String::from_str(name), value: String::from_str(value), inline: true }
    }
}

/// A framed piece of a message.
#[derive(Debug)]
pub struct Embed {
    pub title: Option<String>,
    pub description: Option<String>,
    pub url: Option<String>,
    pub color: Option<u32>,
    pub author: Option<Author>,
    pub fields: Vec<Field>,
}

impl Default for Embed {
    fn default() -> (r: Self)
        ensures
            r.title is None,
            r.description is None,
            r.url is None,
            r.color is None,
            r.author is None,
            r.fields@.len() == 0,
    {
        Embed {
            title: None,
            description: None,
            url: None,
            color: None,
            author: None,
            fields: Vec::new(),
        }
    }
}

impl Embed {
    pub fn title(self, title: String) -> (r: Self)
        ensures
            r == (Embed { title: Some(title), ..self }),
    {
        Embed { title: Some(title), ..self }
    }

    pub fn description(self, description: String) -> (r: Self)
        ensures
            r == (Embed { description: Some(description), ..self }),
    {
        Embed { description: Some(description), ..self }
    }

    pub fn url(self, url: String) -> (r: Self)
        ensures
            r == (Embed { url: Some(url), ..self }),
    {
        Embed { url: Some(url), ..self }
    }

    pub fn color(self, color: u32) -> (r: Self)
        ensures
            r == (Embed { color: Some(color), ..self }),
    {
        Embed { color: Some(color), ..self }
    }

    pub fn author(self, author: Author) -> (r: Self)
        ensures
            r == (Embed { author: Some(author), ..self }),
    {
        Embed { author: Some(author), ..self }
    }

    pub fn fields(self, fields: Vec<Field>) -> (r: Self)
        ensures
            r == (Embed { fields, ..self }),
    {
        Embed { fields, ..self }
    }
}

/// The look of a button.
#[derive(Clone, Copy, Debug, PartialEq, Eq, Structural)]
pub enum ButtonStyle {
    Primary,
    Secondary,
    Success,
    Danger,
}

impl ButtonStyle {
    /// The number that stands for this style.
    pub open spec fn code(self) -> u8 {
        match self {
            ButtonStyle::Primary => 1,
            ButtonStyle::Secondary => 2,
            ButtonStyle::Success => 3,
            ButtonStyle::Danger => 4,
        }
    }

    pub fn to_code(self) -> (r: u8)
        ensures
            r == self.code(),
    {
        match self {
            ButtonStyle::Primary => 1,
            ButtonStyle::Secondary => 2,
            ButtonStyle::Success => 3,
            ButtonStyle::Danger => 4,
        }
    }
}

/// A button: one that reports back when pressed, or one that opens a link.
#[derive(Debug)]
pub enum Button {
    Action { style: ButtonStyle, custom_id: String, label: Option<String>, disabled: bool },
    Link { url: String, label: Option<String>, disabled: bool },
}

/// One entry of a menu.
#[derive(Debug)]
pub struct SelectOption {
    pub label: String,
    pub value: String,
    pub description: Option<String>,
    pub default: bool,
}

/// A menu of texts to pick from.
#[derive(Debug)]
pub struct TextSelectMenu {
    pub custom_id: String,
    pub options: Vec<SelectOption>,
    pub placeholder: Option<String>,
    pub min_values: usize,
    pub max_values: usize,
    pub disabled: bool,
}

/// What a row holds.
#[derive(Debug)]
pub enum ActionRowComponent {
    Button(Button),
    TextSelectMenu(TextSelectMenu),
}

/// A row of buttons, or a row with one menu.
#[derive(Debug)]
pub struct ActionRow {
    pub components: Vec<ActionRowComponent>,
}

/// Whether a row with these components takes no button more. A row of fewer
/// than five components counts as full when it starts with something that is
/// no button; a row of five or more, an empty row and a row that starts with
/// a button do not.
pub open spec fn row_is_full(components: Seq<ActionRowComponent>) -> bool {
    components.len() < 5 && components.len() > 0 && !(components[0] is Button)
}

impl ActionRow {
    pub fn new(components: Vec<ActionRowComponent>) -> (r: Self)
        ensures
            r.components == components,
    {
        ActionRow { components }
    }

    pub fn is_full(&self) -> (r: bool)
        ensures
            r == row_is_full(self.components@),
    {
        if self.components.len() >= 5 {
            return false;
        }
        if self.components.len() == 0 {
            return false;
        }
        match &self.components[0] {
            ActionRowComponent::Button(_) => false,
            _ => true,
        }
    }
}

/// A file that is sent with a message.
pub struct CreateAttachment {
    pub file: File,
    pub description: Option<String>,
}

impl CreateAttachment {
    pub fn new(file: File) -> (r: Self)
        ensures
            r.file == file,
            r.description is None,
    {
        CreateAttachment { file, description: None }
    }

    pub fn description(self, description: String) -> (r: Self)
        ensures
            r.file == self.file,
            r.description == Some(description),
    {
        CreateAttachment { file: self.file, description: Some(description) }
    }
}

/// The files of a list of attachments, in order.
pub open spec fn files_of(list: Seq<CreateAttachment>) -> Seq<FileView> {
    Seq::new(list.len(), |i: int| list[i].file@)
}

/// Copies the files of a list of attachments.
pub fn collect_files(list: &Vec<CreateAttachment>) -> (r: Vec<File>)
    ensures
        file_views(r@) == files_of(list@),
{
    let mut r: Vec<File> = Vec::new();
    let mut i: usize = 0;
    while i < list.len()
        invariant
            i <= list.len(),
            r@.len() == i,
            forall|k: int| 0 <= k < i ==> (#[trigger] r@[k])@ == list@[k].file@,
        decreases list.len() - i,
    {
        r.push(list[i].file.clone());
        i = i + 1;
    }
    assert(file_views(r@) =~= files_of(list@));
    r
}

/// A file that a message has.
#[derive(Debug)]
pub struct Attachment {
    pub id: Snowflake<kind::Attachment>,
}

/// A file that a message has and is to keep.
#[derive(Debug)]
pub struct PartialAttachment {
    pub id: Snowflake<kind::Attachment>,
}

impl PartialAttachment {
    pub fn from(value: Attachment) -> (r: Self)
        ensures
            r.id == value.id,
    {
        PartialAttachment { id: value.id }
    }

    pub fn from_id(value: Snowflake<kind::Attachment>) -> (r: Self)
        ensures
            r.id == value,
    {
        PartialAttachment { id: value }
    }
}

/// A message to send.
pub struct CreateMessage {
    pub content: Option<String>,
    pub embeds: Vec<Embed>,
    pub components: Vec<ActionRow>,
    pub attachments: Indexed<CreateAttachment>,
}

impl Default for CreateMessage {
    fn default() -> (r: Self)
        ensures
            r.content is None,
            r.embeds@.len() == 0,
            r.components@.len() == 0,
            r.attachments.0@.len() == 0,
    {
        CreateMessage {
            content: None,
            embeds: Vec::new(),
            components: Vec::new(),
            attachments: Indexed::new(),
        }
    }
}

impl CreateMessage {
    pub fn content(self, content: String) -> (r: Self)
        ensures
            r == (CreateMessage { content: Some(content), ..self }),
    {
        CreateMessage { content: Some(content), ..self }
    }

    pub fn embeds(self, embeds: Vec<Embed>) -> (r: Self)
        ensures
            r == (CreateMessage { embeds, ..self }),
    {
        CreateMessage { embeds, ..self }
    }

    pub fn components(self, components: Vec<ActionRow>) -> (r: Self)
        ensures
            r == (CreateMessage { components, ..self }),
    {
        CreateMessage { components, ..self }
    }

    pub fn attachments(self, attachments: Indexed<CreateAttachment>) -> (r: Self)
        ensures
            r == (CreateMessage { attachments, ..self }),
    {
        CreateMessage { attachments, ..self }
    }
}

impl Attachments for CreateMessage {
    open spec fn files(&self) -> Seq<FileView> {
        files_of(self.attachments.0@)
    }

    fn attachments(&self) -> (r: Vec<File>) {
        let r = collect_files(&self.attachments.0);
        assert(file_views(r@) == self.files());
        r
    }
}

/// What is to change of a message. Embeds and components are sent even when
/// empty, so that they can be taken away.
pub struct PatchMessage {
    pub content: Option<String>,
    pub embeds: Vec<Embed>,
    pub components: Vec<ActionRow>,
    pub attachments: IndexedOr<CreateAttachment, PartialAttachment>,
}

impl Default for PatchMessage {
    fn default() -> (r: Self)
        ensures
            r.content is None,
            r.embeds@.len() == 0,
            r.components@.len() == 0,
            r.attachments.0@.len() == 0,
            r.attachments.1@.len() == 0,
    {
        PatchMessage {
            content: None,
            embeds: Vec::new(),
            components: Vec::new(),
            attachments: IndexedOr::new(),
        }
    }
}

impl PatchMessage {
    pub fn content(self, content: String) -> (r: Self)
        ensures
            r == (PatchMessage { content: Some(content), ..self }),
    {
        PatchMessage { content: Some(content), ..self }
    }

    pub fn embeds(self, embeds: Vec<Embed>) -> (r: Self)
        ensures
            r == (PatchMessage { embeds, ..self }),
    {
        PatchMessage { embeds, ..self }
    }

    pub fn components(self, components: Vec<ActionRow>) -> (r: Self)
        ensures
            r == (PatchMessage { components, ..self }),
    {
        PatchMessage { components, ..self }
    }

    pub fn attachments(self, attachments: IndexedOr<CreateAttachment, PartialAttachment>) -> (r: Self)
        ensures
            r == (PatchMessage { attachments, ..self }),
    {
        PatchMessage { attachments, ..self }
    }
}

impl Attachments for PatchMessage {
    open spec fn files(&self) -> Seq<FileView> {
        files_of(self.attachments.0@)
    }

    fn attachments(&self) -> (r: Vec<File>) {
        let r = collect_files(&self.attachments.0);
        assert(file_views(r@) == self.files());
        r
    }
}

/// A message as the API gives it.
pub struct Message {
    pub id: MessageIdentifier,
    pub author: PartialUser,
    pub content: String,
    pub embeds: Vec<Embed>,
    pub components: Vec<ActionRow>,
    pub attachments: Vec<Attachment>,
}

/// A message of which only the identifier is known.
pub struct PartialMessage {
    pub id: MessageIdentifier,
}

/// What stands for a message.
pub trait MessageResource {
    /// The message that this stands for.
    spec fn identifier(&self) -> MessageIdentifier;

    fn endpoint(&self) -> (r: MessageIdentifier)
        ensures
            r == self.identifier(),
    ;

    /// The request for the message.
    fn get(&self) -> (r: HttpRequest)
        ensures
            r.is(
                Method::Get,
                message_path(self.identifier().channel(), self.identifier().message()),
                None,
                Seq::empty(),
            ),
    {
        let id = self.endpoint();
        HttpRequest::get(id.uri())
    }

    /// The request that changes the message as `body` says, in JSON text,
    /// with the files that come new.
    fn patch(&self, body: String, files: Vec<File>) -> (r: HttpRequest)
        ensures
            r.is(
                Method::Patch,
                message_path(self.identifier().channel(), self.identifier().message()),
                Some(body@),
                file_views(files@),
            ),
    {
        let id = self.endpoint();
        HttpRequest::patch_attached(id.uri(), body, files)
    }

    /// The request that deletes the message.
    fn delete(&self) -> (r: HttpRequest)
        ensures
            r.is(
                Method::Delete,
                message_path(self.identifier().channel(), self.identifier().message()),
                None,
                Seq::empty(),
            ),
    {
        let id = self.endpoint();
        HttpRequest::delete(id.uri())
    }

    /// The request that starts a thread of this name under the message.
    fn start_thread(&self, name: &str) -> (r: HttpRequest)
        ensures
            r.is(
                Method::Post,
                message_path(self.identifier().channel(), self.identifier().message())
                    + "/threads"@,
                Some("{\"name\":"@ + json_quoted(name@) + "}"@),
                Seq::empty(),
            ),
    {
        let id = self.endpoint();
        let mut uri = id.uri();
        uri.append("/threads");
        let mut body = String::from_str("{\"name\":");
        let quoted = quote(name);
        body.append(quoted.as_str());
        body.append("}");
        HttpRequest::post(uri, body)
    }
}

impl MessageResource for MessageIdentifier {
    open spec fn identifier(&self) -> MessageIdentifier {
        *self
    }

    fn endpoint(&self) -> (r: MessageIdentifier) {
        *self
    }
}

impl MessageResource for Message {
    open spec fn identifier(&self) -> MessageIdentifier {
        self.id
    }

    fn endpoint(&self) -> (r: MessageIdentifier) {
        self.id
    }
}

impl MessageResource for PartialMessage {
    open spec fn identifier(&self) -> MessageIdentifier {
        self.id
    }

    fn endpoint(&self) -> (r: MessageIdentifier) {
        self.id
    }
}

} // verus!
