use discord::application::{Application, ApplicationResource, Me as ApplicationMe};
use discord::channel::{Channel, ChannelResource, PartialChannel};
use discord::command::{
    BuilderError, Command, CommandData, CommandOption, CommandResource, CommandType, Commands, Param,
    StringOption,
};
use discord::guild::{Guild, GuildResource, PartialGuild};
use discord::interaction::{
    callback_uri, classify, is_true, response_body, AnyInteraction, CommandTarget, CreateReply,
    CreateUpdate,
    Interaction, InteractionKind, InteractionResource, InteractionResponseIdentifier,
    InteractionToken, MessageInteractionToken, ModalSubmit, ParamValue, ReplyFlag, ReplyFlags,
    TextActionRow, TextComponent, TextStyle,
};
use discord::kind;
use discord::message::{
    collect_files, ActionRow, ActionRowComponent, Attachment, Author, Button, ButtonStyle,
    CreateAttachment, CreateMessage, Embed, Field, MessageIdentifier, MessageResource,
    PartialAttachment, PatchMessage, SelectOption, TextSelectMenu,
};
use discord::request::{
    bound_to_global_limit, check_status, create_payload, get_bucket, is_no_content, should_retry,
    write_form, Attachments, File, HttpRequest, Indexed, IndexedOr, Method, RequestError,
};
use discord::resource::{uri_under, Endpoint, Snowflake};
use discord::user::{Me as UserMe, PatchUser, User, UserResource};

fn request(method: Method, uri: &str, body: Option<&str>) -> HttpRequest {
    HttpRequest { method, uri: uri.to_string(), body: body.map(|b| b.to_string()), files: vec![] }
}

fn file(name: &str) -> File {
    File { name: name.to_string(), typ: "text/plain".to_string(), data: vec![104, 105] }
}

fn user(id: u64) -> User {
    User { id: Snowflake::new(id), username: "someone".to_string() }
}

#[test]
fn snowflake_holds_a_number() {
    let id: Snowflake<kind::User> = Snowflake::new(175928847299117063);
    assert_eq!(id.as_int(), 175928847299117063);
    assert_eq!(id.to_text(), "175928847299117063");
    assert!(id == id.clone());
    assert!(id != Snowflake::new(1));
    assert_eq!(Snowflake::<kind::User>::parse("175928847299117063").unwrap().as_int(), 175928847299117063);
    assert!(Snowflake::<kind::User>::parse("abc").is_none());
    assert!(Snowflake::<kind::User>::parse("").is_none());
    assert_eq!(Snowflake::<kind::Guild>::parse(&Snowflake::<kind::Guild>::new(0).to_text()).unwrap().as_int(), 0);
}

#[test]
fn endpoints_of_identifiers() {
    assert_eq!(Snowflake::<kind::Application>::new(5).uri(), "/applications/@me");
    assert_eq!(Snowflake::<kind::Channel>::new(5).uri(), "/channels/5");
    assert_eq!(Snowflake::<kind::Guild>::new(77).uri(), "/guilds/77");
    assert_eq!(Snowflake::<kind::User>::new(u64::MAX).uri(), "/users/18446744073709551615");
    assert_eq!(uri_under("/things/", 0), "/things/0");
    assert_eq!(Snowflake::<kind::Channel>::new(12).mention(), "<#12>");
    assert_eq!(Snowflake::<kind::User>::new(34).mention(), "<@34>");
}

#[test]
fn commands_live_under_their_application() {
    let app = Application { id: Snowflake::new(10) };
    assert_eq!(app.global_commands().uri(), "/applications/10/commands");
    let guild = Guild { id: Snowflake::new(20), name: "g".to_string() };
    assert_eq!(app.guild_commands(&guild).uri(), "/applications/10/guilds/20/commands");
    assert_eq!(ApplicationResource::global_commands(&app).uri(), "/applications/10/commands");
    assert_eq!(
        ApplicationResource::guild_commands(&Snowflake::<kind::Application>::new(11), &PartialGuild { id: Snowflake::new(21) }).uri(),
        "/applications/11/guilds/21/commands"
    );
    let commands = Commands::new(Snowflake::new(1), Some(Snowflake::new(2)));
    let one = commands.command(Snowflake::new(3));
    assert_eq!(one.uri(), "/applications/1/guilds/2/commands/3");
    assert_eq!(one.endpoint().uri(), "/applications/1/guilds/2/commands/3");
    assert_eq!(commands.all(), request(Method::Get, "/applications/1/guilds/2/commands", None));
    assert_eq!(
        commands.create("{\"name\":\"ping\"}".to_string()),
        request(Method::Post, "/applications/1/guilds/2/commands", Some("{\"name\":\"ping\"}"))
    );
    assert_eq!(one.get(), request(Method::Get, "/applications/1/guilds/2/commands/3", None));
    assert_eq!(one.delete(), request(Method::Delete, "/applications/1/guilds/2/commands/3", None));
    let command = Command { id: one, data: CommandData::new("ping", "pong") };
    assert_eq!(command.endpoint().uri(), "/applications/1/guilds/2/commands/3");
    assert_eq!(Application::get_request(), request(Method::Get, "/oauth2/applications/@me", None));
    assert_eq!(ApplicationMe.get(), request(Method::Get, "/applications/@me", None));
}

#[test]
fn command_data_and_options() {
    let data = CommandData::new("play", "Start a new game");
    assert_eq!(data.name, "play");
    assert_eq!(data.description, "Start a new game");
    assert_eq!(data.input_type, CommandType::ChatInput);
    assert!(data.options.is_empty());
    let option = StringOption::new("game", "What game to play");
    assert!(!option.required);
    assert!(option.choices.is_empty());
    let option = option.required().choices(vec![Param::new("A".to_string(), "a".to_string())]);
    assert!(option.required);
    assert_eq!(option.choices.len(), 1);
    assert_eq!(option.choices[0].name, "A");
    assert_eq!(option.choices[0].value, "a");
    assert_eq!(option.name, "game");
    let data = data.options(vec![CommandOption::from(option)]).input_type(CommandType::User);
    assert_eq!(data.options.len(), 1);
    assert_eq!(data.options[0].to_code(), 3);
    assert_eq!(data.input_type.to_code(), 2);
    assert_eq!(data.name, "play");
    assert_eq!(CommandType::default(), CommandType::ChatInput);
    assert_eq!(CommandType::from_code(3), Some(CommandType::Message));
    assert_eq!(CommandType::from_code(0), None);
    assert_eq!(CommandType::from_code(4), None);
    assert_eq!(CommandOption::SubCommand.to_code(), 1);
    assert_eq!(CommandOption::Attachment.to_code(), 11);
    assert_eq!(Param::new("n".to_string(), 5u8).value, 5);
}

#[test]
fn builders_ask_for_name_and_description() {
    assert_eq!(CommandData::builder().build().unwrap_err(), BuilderError::MissingName);
    assert_eq!(
        CommandData::builder().description("d".to_string()).build().unwrap_err(),
        BuilderError::MissingName
    );
    assert_eq!(
        CommandData::builder().name("n".to_string()).build().unwrap_err(),
        BuilderError::MissingDescription
    );
    let data = CommandData::builder().name("n".to_string()).description("d".to_string()).build().unwrap();
    assert_eq!((data.name.as_str(), data.description.as_str()), ("n", "d"));
    assert_eq!(data.input_type, CommandType::ChatInput);
    assert!(data.options.is_empty());
    let data = CommandData::builder()
        .name("n".to_string())
        .description("d".to_string())
        .input_type(CommandType::Message)
        .options(vec![CommandOption::Integer])
        .build()
        .unwrap();
    assert_eq!(data.input_type, CommandType::Message);
    assert_eq!(data.options.len(), 1);
    assert_eq!(StringOption::builder().build().unwrap_err(), BuilderError::MissingName);
    assert_eq!(
        StringOption::builder().name("n".to_string()).build().unwrap_err(),
        BuilderError::MissingDescription
    );
    let option = StringOption::builder()
        .name("n".to_string())
        .description("d".to_string())
        .required(true)
        .choices(vec![Param::new("a".to_string(), "b".to_string())])
        .build()
        .unwrap();
    assert!(option.required);
    assert_eq!(option.choices.len(), 1);
    let option = StringOption::builder().name("n".to_string()).description("d".to_string()).build().unwrap();
    assert!(!option.required);
    assert!(option.choices.is_empty());
}

#[test]
fn requests_for_channels_guilds_and_users() {
    let channel = Channel { id: Snowflake::new(9), name: None };
    assert_eq!(channel.get(), request(Method::Get, "/channels/9", None));
    assert_eq!(PartialChannel { id: Snowflake::new(8) }.endpoint().as_int(), 8);
    let sent = Snowflake::<kind::Channel>::new(9).send_message("{}".to_string(), vec![file("a.txt")]);
    assert_eq!(sent.method, Method::Post);
    assert_eq!(sent.uri, "/channels/9/messages");
    assert_eq!(sent.body.as_deref(), Some("{}"));
    assert_eq!(sent.files, vec![file("a.txt")]);
    assert_eq!(Snowflake::<kind::Guild>::new(4).get(), request(Method::Get, "/guilds/4", None));
    assert_eq!(user(3).get(), request(Method::Get, "/users/3", None));
    assert_eq!(
        user(3).create_dm(),
        request(Method::Post, "/users/@me/channels", Some("{\"recipient_id\":\"3\"}"))
    );
    assert_eq!(UserMe.get(), request(Method::Get, "/users/@me", None));
    assert_eq!(UserMe.get_guilds(), request(Method::Get, "/users/@me/guilds", None));
    assert_eq!(
        UserMe.patch("{\"username\":\"x\"}".to_string()),
        request(Method::Patch, "/users/@me", Some("{\"username\":\"x\"}"))
    );
    assert_eq!(PatchUser::default().username, None);
    assert_eq!(PatchUser::default().username("x".to_string()).username.as_deref(), Some("x"));
}

#[test]
fn requests_for_messages() {
    let id = MessageIdentifier::new(Snowflake::new(1), Snowflake::new(2));
    assert_eq!(id.uri(), "/channels/1/messages/2");
    assert_eq!(id.snowflake().as_int(), 2);
    assert_eq!(id.channel_id().as_int(), 1);
    assert_eq!(id.get(), request(Method::Get, "/channels/1/messages/2", None));
    assert_eq!(id.delete(), request(Method::Delete, "/channels/1/messages/2", None));
    let patch = id.patch("{}".to_string(), vec![]);
    assert_eq!(patch, request(Method::Patch, "/channels/1/messages/2", Some("{}")));
    assert_eq!(
        id.start_thread("a \"thread\""),
        request(Method::Post, "/channels/1/messages/2/threads", Some("{\"name\":\"a \\\"thread\\\"\"}"))
    );
    let link = id.link_in(Snowflake::new(3));
    assert_eq!(link.to_text(), "https://discord.com/channels/3/1/2");
    assert_eq!(link.message().uri(), "/channels/1/messages/2");
}

#[test]
fn http_request_constructors() {
    assert_eq!(HttpRequest::get("/a".to_string()), request(Method::Get, "/a", None));
    assert_eq!(HttpRequest::delete("/a".to_string()), request(Method::Delete, "/a", None));
    assert_eq!(HttpRequest::post("/a".to_string(), "1".to_string()), request(Method::Post, "/a", Some("1")));
    assert_eq!(HttpRequest::patch("/a".to_string(), "1".to_string()), request(Method::Patch, "/a", Some("1")));
    let attached = HttpRequest::post_attached("/a".to_string(), "1".to_string(), vec![file("x")]);
    assert_eq!(attached.method, Method::Post);
    assert_eq!(attached.files, vec![file("x")]);
    let attached = HttpRequest::patch_attached("/a".to_string(), "1".to_string(), vec![file("y")]);
    assert_eq!(attached.method, Method::Patch);
    assert_eq!(attached.files, vec![file("y")]);
}

#[test]
fn status_says_what_went_wrong() {
    assert_eq!(check_status(200), Ok(()));
    assert_eq!(check_status(204), Ok(()));
    assert_eq!(check_status(399), Ok(()));
    assert_eq!(check_status(429), Err(RequestError::RateLimited));
    assert_eq!(check_status(400), Err(RequestError::ClientError(400)));
    assert_eq!(check_status(404), Err(RequestError::ClientError(404)));
    assert_eq!(check_status(499), Err(RequestError::ClientError(499)));
    assert_eq!(check_status(500), Err(RequestError::ServerError));
    assert_eq!(check_status(599), Err(RequestError::ServerError));
    assert_eq!(check_status(600), Ok(()));
    assert!(is_no_content(204));
    assert!(!is_no_content(200));
    assert!(should_retry(RequestError::RateLimited));
    assert!(should_retry(RequestError::Network));
    assert!(!should_retry(RequestError::Authorization));
    assert!(!should_retry(RequestError::ClientError(404)));
    assert!(!should_retry(RequestError::ServerError));
    assert!(!should_retry(RequestError::InvalidSession));
}

#[test]
fn buckets_of_paths() {
    assert_eq!(get_bucket("/channels/123/messages/456"), "/channels/123");
    assert_eq!(get_bucket("/channels/123"), "/channels/123");
    assert_eq!(get_bucket("/channels/123/"), "/channels/123");
    assert_eq!(get_bucket("/guilds/9/members/1"), "/guilds/9");
    assert_eq!(get_bucket("/guilds/"), "/guilds");
    assert_eq!(get_bucket("/channels//x"), "/channels/");
    assert_eq!(get_bucket("/users/@me/guilds"), "/users/@me/guilds");
    assert_eq!(get_bucket("/guilds"), "/guilds");
    assert_eq!(get_bucket(""), "");
    assert_eq!(get_bucket("/applications/1/guilds/2/commands"), "/applications/1/guilds/2/commands");
}

#[test]
fn paths_that_count_towards_the_global_limit() {
    assert!(bound_to_global_limit("/channels/1"));
    assert!(bound_to_global_limit("/gateway"));
    assert!(bound_to_global_limit("/interactions"));
    assert!(bound_to_global_limit(""));
    assert!(!bound_to_global_limit("/interactions/1/token/callback"));
    assert!(!bound_to_global_limit("/webhooks/1/token"));
    assert!(!bound_to_global_limit("/webhooks/"));
}

#[test]
fn form_frames_body_and_files() {
    let files = vec![
        File { name: "a.txt".to_string(), typ: "text/plain".to_string(), data: vec![104, 105] },
        File { name: "b.bin".to_string(), typ: "application/octet-stream".to_string(), data: vec![0, 255] },
    ];
    let mut expected: Vec<u8> = Vec::new();
    expected.extend_from_slice(b"--boundary\nContent-Disposition: form-data; name=\"payload_json\"\nContent-Type: application/json\n\n{\"a\":1}\n");
    expected.extend_from_slice(b"--boundary\nContent-Disposition: form-data; name=\"files[0]\"; filename=\"a.txt\"\nContent-Type: text/plain\n\nhi\n");
    expected.extend_from_slice(b"--boundary\nContent-Disposition: form-data; name=\"files[1]\"; filename=\"b.bin\"\nContent-Type: application/octet-stream\n\n");
    expected.extend_from_slice(&[0, 255]);
    expected.extend_from_slice(b"\n--boundary--\n");
    assert_eq!(write_form(Some("{\"a\":1}"), &files), expected);
    assert_eq!(write_form(None, &vec![]), b"--boundary--\n".to_vec());
    let payload = create_payload(Some("{\"a\":1}"), &files);
    assert_eq!(payload.content_type, Some("multipart/form-data; boundary=boundary"));
    assert_eq!(payload.bytes, expected);
    let payload = create_payload(Some("{\"é\":1}"), &vec![]);
    assert_eq!(payload.content_type, Some("application/json"));
    assert_eq!(payload.bytes, "{\"é\":1}".as_bytes().to_vec());
    let payload = create_payload(None, &vec![]);
    assert_eq!(payload.content_type, None);
    assert!(payload.bytes.is_empty());
}

#[test]
fn indexed_lists() {
    let list: Indexed<u8> = Indexed::new();
    assert!(list.is_empty());
    let list = Indexed::from(vec![1u8, 2]);
    assert!(!list.is_empty());
    assert_eq!(list.iter(), &vec![1u8, 2]);
    let both: IndexedOr<u8, u8> = IndexedOr::new();
    assert!(both.0.is_empty() && both.1.is_empty());
}

#[test]
fn embeds_fields_and_rows() {
    assert_eq!(Author::new("me").name, "me");
    let field = Field::new("a", "b");
    assert_eq!((field.name.as_str(), field.value.as_str(), field.inline), ("a", "b", false));
    let field = Field::inlined("a", "b");
    assert!(field.inline);
    let embed = Embed::default()
        .title("t".to_string())
        .description("d".to_string())
        .url("u".to_string())
        .color(0xff00ff)
        .author(Author::new("me"))
        .fields(vec![Field::new("a", "b")]);
    assert_eq!(embed.title.as_deref(), Some("t"));
    assert_eq!(embed.description.as_deref(), Some("d"));
    assert_eq!(embed.url.as_deref(), Some("u"));
    assert_eq!(embed.color, Some(0xff00ff));
    assert_eq!(embed.author.unwrap().name, "me");
    assert_eq!(embed.fields.len(), 1);
    assert_eq!(ButtonStyle::Primary.to_code(), 1);
    assert_eq!(ButtonStyle::Danger.to_code(), 4);
}

fn button() -> ActionRowComponent {
    ActionRowComponent::Button(Button::Action {
        style: ButtonStyle::Primary,
        custom_id: "x".to_string(),
        label: None,
        disabled: false,
    })
}

fn menu() -> ActionRowComponent {
    ActionRowComponent::TextSelectMenu(TextSelectMenu {
        custom_id: "m".to_string(),
        options: vec![SelectOption {
            label: "l".to_string(),
            value: "v".to_string(),
            description: None,
            default: false,
        }],
        placeholder: None,
        min_values: 1,
        max_values: 1,
        disabled: false,
    })
}

#[test]
fn row_is_full_only_when_it_starts_with_a_menu() {
    assert!(!ActionRow::new(vec![]).is_full());
    assert!(!ActionRow::new(vec![button()]).is_full());
    assert!(!ActionRow::new(vec![button(), button(), button(), button()]).is_full());
    assert!(!ActionRow::new(vec![button(), button(), button(), button(), button()]).is_full());
    assert!(ActionRow::new(vec![menu()]).is_full());
    assert!(ActionRow::new(vec![menu(), button()]).is_full());
    assert!(!ActionRow::new(vec![menu(), button(), button(), button(), button()]).is_full());
    assert!(!ActionRow::new(vec![button(), menu()]).is_full());
}

#[test]
fn messages_carry_their_files() {
    let attachment = CreateAttachment::new(file("a")).description("about".to_string());
    assert_eq!(attachment.description.as_deref(), Some("about"));
    assert_eq!(attachment.file, file("a"));
    assert_eq!(CreateAttachment::new(file("a")).description, None);
    let list = vec![CreateAttachment::new(file("a")), CreateAttachment::new(file("b"))];
    assert_eq!(collect_files(&list), vec![file("a"), file("b")]);
    let message = CreateMessage::default()
        .content("hi".to_string())
        .embeds(vec![Embed::default()])
        .components(vec![ActionRow::new(vec![])])
        .attachments(Indexed::from(list));
    assert_eq!(message.content.as_deref(), Some("hi"));
    assert_eq!(message.embeds.len(), 1);
    assert_eq!(message.components.len(), 1);
    assert_eq!(Attachments::attachments(&message), vec![file("a"), file("b")]);
    assert!(Attachments::attachments(&CreateMessage::default()).is_empty());
    let patch = PatchMessage::default()
        .content("x".to_string())
        .attachments(IndexedOr(vec![CreateAttachment::new(file("c"))], vec![PartialAttachment::from_id(Snowflake::new(4))]));
    assert_eq!(Attachments::attachments(&patch), vec![file("c")]);
    assert_eq!(patch.attachments.1[0].id.as_int(), 4);
    assert_eq!(PartialAttachment::from(Attachment { id: Snowflake::new(6) }).id.as_int(), 6);
    let update = CreateUpdate::default()
        .content("x".to_string())
        .embeds(vec![])
        .components(vec![])
        .attachments(IndexedOr(vec![CreateAttachment::new(file("d"))], vec![]));
    assert_eq!(Attachments::attachments(&update), vec![file("d")]);
}

#[test]
fn reply_flags_are_bits() {
    assert_eq!(ReplyFlag::Ephemeral.to_bit(), 64);
    assert_eq!(ReplyFlag::SuppressEmbeds.to_bit(), 4);
    assert!(ReplyFlags::empty().is_empty());
    assert_eq!(ReplyFlags::empty().bits(), 0);
    let flags = ReplyFlags::from(ReplyFlag::Ephemeral);
    assert!(flags.contains(ReplyFlag::Ephemeral));
    assert!(!flags.contains(ReplyFlag::SuppressEmbeds));
    assert!(!flags.is_empty());
    assert_eq!(flags.bits(), 64);
    let flags = flags.with(ReplyFlag::SuppressEmbeds);
    assert_eq!(flags.bits(), 68);
    assert_eq!(flags.with(ReplyFlag::Ephemeral), flags);
    let reply = CreateReply::default().flags(flags).content("x".to_string());
    assert_eq!(reply.flags.bits(), 68);
    assert_eq!(CreateReply::default().flags, ReplyFlags::empty());
    assert_eq!(TextStyle::Short.to_code(), 1);
    assert_eq!(TextStyle::Paragraph.to_code(), 2);
}

fn token() -> InteractionToken {
    InteractionToken { id: Snowflake::new(7), token: "tok".to_string(), application_id: Snowflake::new(8) }
}

fn message_token() -> MessageInteractionToken {
    MessageInteractionToken { id: Snowflake::new(7), token: "tok".to_string(), application_id: Snowflake::new(8) }
}

#[test]
fn answers_to_interactions() {
    assert_eq!(callback_uri(7, "tok"), "/interactions/7/tok/callback");
    assert_eq!(response_body(4, "{\"content\":\"x\"}"), "{\"type\":4,\"data\":{\"content\":\"x\"}}");
    assert_eq!(token().uri_response(), "/interactions/7/tok/callback");
    let (sent, id) = token().reply("{}");
    assert_eq!(sent, request(Method::Post, "/interactions/7/tok/callback", Some("{\"type\":4,\"data\":{}}")));
    assert_eq!(id.uri(), "/webhooks/8/tok/messages/@original");
    assert_eq!(
        token().modal("{}"),
        request(Method::Post, "/interactions/7/tok/callback", Some("{\"type\":9,\"data\":{}}"))
    );
    assert_eq!(message_token().uri_response(), "/interactions/7/tok/callback");
    let (sent, _) = message_token().reply("1");
    assert_eq!(sent.body.as_deref(), Some("{\"type\":4,\"data\":1}"));
    assert_eq!(message_token().modal("1").body.as_deref(), Some("{\"type\":9,\"data\":1}"));
    let (sent, _) = message_token().update("{}", vec![file("f")]);
    assert_eq!(sent.body.as_deref(), Some("{\"type\":7,\"data\":{}}"));
    assert_eq!(sent.files, vec![file("f")]);
    let (sent, id) = message_token().deferred_update();
    assert_eq!(sent, request(Method::Post, "/interactions/7/tok/callback", Some("{\"type\":7,\"data\":null}")));
    assert_eq!(id.message.is_none(), true);
    assert_eq!(InteractionResource::token(token()).id.as_int(), 7);
    let interaction = Interaction { data: 1u8, token: token(), user: user(3), channel_id: Snowflake::new(4) };
    assert_eq!(InteractionResource::token(interaction).token, "tok");
}

#[test]
fn messages_that_answered_an_interaction() {
    let id = InteractionResponseIdentifier {
        application_id: Snowflake::new(8),
        token: "tok".to_string(),
        message: None,
    };
    assert_eq!(id.uri(), "/webhooks/8/tok/messages/@original");
    assert_eq!(id.get(), request(Method::Get, "/webhooks/8/tok/messages/@original", None));
    assert_eq!(id.patch("{}".to_string()), request(Method::Patch, "/webhooks/8/tok/messages/@original", Some("{}")));
    let (sent, next) = id.followup("{}".to_string());
    assert_eq!(sent, request(Method::Post, "/webhooks/8/tok", Some("{}")));
    assert_eq!(next.token, "tok");
    assert!(next.message.is_none());
    let later = next.for_message(Snowflake::new(99));
    assert_eq!(later.uri(), "/webhooks/8/tok/messages/99");
    assert_eq!(later.delete(), request(Method::Delete, "/webhooks/8/tok/messages/99", None));
}

#[test]
fn interactions_are_told_apart_by_type() {
    assert_eq!(classify("{\"type\":2}"), Some(InteractionKind::Command));
    assert_eq!(classify("{\"type\":3,\"message\":{}}"), Some(InteractionKind::Component));
    assert_eq!(classify("{\"type\":5}"), Some(InteractionKind::Modal));
    assert_eq!(classify("{\"type\":5,\"message\":{}}"), Some(InteractionKind::MessageModal));
    assert_eq!(classify("{\"type\":5,\"message\":null}"), Some(InteractionKind::MessageModal));
    assert_eq!(classify("{\"type\":1}"), None);
    assert_eq!(classify("{\"type\":\"2\"}"), None);
    assert_eq!(classify("{}"), None);
    assert_eq!(classify("nonsense"), None);
    let any = AnyInteraction::Modal(Interaction {
        data: ModalSubmit { custom_id: "m".to_string(), components: vec![] },
        token: token(),
        user: user(1),
        channel_id: Snowflake::new(2),
    });
    assert_eq!(any.kind(), InteractionKind::Modal);
}

#[test]
fn param_values_are_read_by_kind() {
    let text = ParamValue { name: "a".to_string(), value: serde_json::Value::from("x"), options: vec![] };
    assert_eq!(text.as_string(), Some("x"));
    assert_eq!(text.as_integer(), None);
    assert_eq!(text.as_bool(), None);
    let number = ParamValue { name: "a".to_string(), value: serde_json::Value::from(-5), options: vec![] };
    assert_eq!(number.as_integer(), Some(-5));
    assert_eq!(number.as_string(), None);
    let truth = ParamValue { name: "a".to_string(), value: serde_json::Value::from(true), options: vec![] };
    assert_eq!(truth.as_bool(), Some(true));
    assert_eq!(truth.as_integer(), None);
}

#[test]
fn text_components() {
    let text = TextComponent::new("id", TextStyle::Paragraph, "Label");
    assert_eq!(text.custom_id, "id");
    assert_eq!(text.label, "Label");
    assert_eq!(text.style, TextStyle::Paragraph);
    assert!(text.required);
    assert_eq!((text.min_length, text.max_length), (None, None));
    assert!(text.value.is_none() && text.placeholder.is_none());
    let text = text
        .min_length(1)
        .max_length(9)
        .required(false)
        .value("v".to_string())
        .placeholder("p".to_string());
    assert_eq!((text.min_length, text.max_length), (Some(1), Some(9)));
    assert!(!text.required);
    assert_eq!(text.value.as_deref(), Some("v"));
    assert_eq!(text.placeholder.as_deref(), Some("p"));
    assert_eq!(TextActionRow::new(text).component.custom_id, "id");
    assert!(is_true(&true));
    assert!(!is_true(&false));
}

#[test]
fn command_targets_are_read_from_the_data() {
    assert!(matches!(CommandTarget::read("{\"type\":1}"), Some(CommandTarget::ChatInput)));
    match CommandTarget::read("{\"type\":2,\"target_id\":\"42\"}") {
        Some(CommandTarget::User(id)) => assert_eq!(id.as_int(), 42),
        _ => panic!("no user"),
    }
    match CommandTarget::read("{\"type\":3,\"target_id\":\"7\"}") {
        Some(CommandTarget::Message(id)) => assert_eq!(id.as_int(), 7),
        _ => panic!("no message"),
    }
    assert!(CommandTarget::read("{\"type\":2}").is_none());
    assert!(CommandTarget::read("{\"type\":2,\"target_id\":42}").is_none());
    assert!(CommandTarget::read("{\"type\":3,\"target_id\":\"x\"}").is_none());
    assert!(CommandTarget::read("{\"type\":4}").is_none());
    assert!(CommandTarget::read("{}").is_none());
    assert!(CommandTarget::read("[").is_none());
}
