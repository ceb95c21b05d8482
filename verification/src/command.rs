//! Application commands: what a command is made of, and where commands live.

use vstd::prelude::*;
use vstd::string::*;
use crate::kind;
use crate::request::{HttpRequest, Method};
use crate::resource::{Endpoint, Snowflake};
use crate::text::{decimal_text, push_decimal};

verus! {

/// The commands of an application, everywhere or in one guild.
#[derive(Clone, Copy)]
pub struct Commands {
    application_id: Snowflake<kind::Application>,
    guild_id: Option<Snowflake<kind::Guild>>,
}

/// How a command is called up.
#[derive(Clone, Copy, Debug, PartialEq, Eq, Structural)]
pub enum CommandType {
    ChatInput,
    User,
    Message,
}

impl CommandType {
    /// The number that stands for this type.
    pub open spec fn code(self) -> u8 {
        match self {
            CommandType::ChatInput => 1,
            CommandType::User => 2,
            CommandType::Message => 3,
        }
    }

    pub fn to_code(self) -> (r: u8)
        ensures
            r == self.code(),
    {
        match self {
            CommandType::ChatInput => 1,
            CommandType::User => 2,
            CommandType::Message => 3,
        }
    }

    /// The type that a number stands for.
    pub fn from_code(code: u8) -> (r: Option<CommandType>)
        ensures
            match r {
                Some(t) => t.code() == code,
                None => code < 1 || code > 3,
            },
    {
        if code == 1 {
            Some(CommandType::ChatInput)
        } else if code == 2 {
            Some(CommandType::User)
        } else if code == 3 {
            Some(CommandType::Message)
        } else {
            None
        }
    }
}

impl Default for CommandType {
    fn default() -> (r: Self)
        ensures
            r == CommandType::ChatInput,
    {
        CommandType::ChatInput
    }
}

/// A named value that a user can pick.
#[derive(Debug)]
pub struct Param<T> {
    pub name: String,
    pub value: T,
}

impl<T> Param<T> {
    pub fn new(name: String, value: T) -> (r: Param<T>)
        ensures
            r.name == name,
            r.value == value,
    {
        Param { name, value }
    }
}

/// An option that takes a text.
#[derive(Debug)]
pub struct StringOption {
    pub name: String,
    pub description: String,
    pub choices: Vec<Param<String>>,
    pub required: bool,
}

impl StringOption {
    /// An option that is not required and offers no choices.
    pub fn new(name: &str, description: &str) -> (r: Self)
        ensures
            r.name@ == name@,
            r.description@ == description@,
            r.choices@.len() == 0,
            !r.required,
    {
        StringOption {
            name: String::from_str(name),
            description: String::from_str(description),
            choices: Vec::new(),
            required: false,
        }
    }

    /// The same option with these choices.
    pub fn choices(self, choices: Vec<Param<String>>) -> (r: Self)
        ensures
            r.name == self.name,
            r.description == self.description,
            r.choices == choices,
            r.required == self.required,
    {
        StringOption { name: self.name, description: self.description, choices, required: self.required }
    }

    /// The same option, required.
    pub fn required(self) -> (r: Self)
        ensures
            r.name == self.name,
            r.description == self.description,
            r.choices == self.choices,
            r.required,
    {
        StringOption {
            name: self.name,
            description: self.description,
            choices: self.choices,
            required: true,
        }
    }

    /// A builder with nothing set.
    pub fn builder() -> (r: StringOptionBuilder)
        ensures
            r.name is None,
            r.description is None,
            r.choices is None,
            r.required is None,
    {
        StringOptionBuilder { name: None, description: None, choices: None, required: None }
    }
}

/// An option of a command.
#[derive(Debug)]
pub enum CommandOption {
    SubCommand,
    SubCommandGroup,
    String(StringOption),
    Integer,
    Boolean,
    User,
    Channel,
    Role,
    Mentionable,
    Number,
    Attachment,
}

impl CommandOption {
    /// The number that stands for this kind of option.
    pub open spec fn code(self) -> u8 {
        match self {
            CommandOption::SubCommand => 1,
            CommandOption::SubCommandGroup => 2,
            CommandOption::String(_) => 3,
            CommandOption::Integer => 4,
            CommandOption::Boolean => 5,
            CommandOption::User => 6,
            CommandOption::Channel => 7,
            CommandOption::Role => 8,
            CommandOption::Mentionable => 9,
            CommandOption::Number => 10,
            CommandOption::Attachment => 11,
        }
    }

    pub fn to_code(&self) -> (r: u8)
        ensures
            r == self.code(),
    {
        match self {
            CommandOption::SubCommand => 1,
            CommandOption::SubCommandGroup => 2,
            CommandOption::String(_) => 3,
            CommandOption::Integer => 4,
            CommandOption::Boolean => 5,
            CommandOption::User => 6,
            CommandOption::Channel => 7,
            CommandOption::Role => 8,
            CommandOption::Mentionable => 9,
            CommandOption::Number => 10,
            CommandOption::Attachment => 11,
        }
    }

    /// The option that takes this text.
    pub fn from(value: StringOption) -> (r: Self)
        ensures
            r == CommandOption::String(value),
    {
        CommandOption::String(value)
    }
}

/// What a command is made of.
#[derive(Debug)]
pub struct CommandData {
    pub name: String,
    pub description: String,
    pub input_type: CommandType,
    pub options: Vec<CommandOption>,
}

impl CommandData {
    /// A chat command without options.
    pub fn new(name: &str, description: &str) -> (r: Self)
        ensures
            r.name@ == name@,
            r.description@ == description@,
            r.input_type == CommandType::ChatInput,
            r.options@.len() == 0,
    {
        CommandData {
            name: String::from_str(name),
            description: String::from_str(description),
            input_type: CommandType::ChatInput,
            options: Vec::new(),
        }
    }

    /// The same command, called up in this way.
    pub fn input_type(self, input_type: CommandType) -> (r: Self)
        ensures
            r.name == self.name,
            r.description == self.description,
            r.input_type == input_type,
            r.options == self.options,
    {
        CommandData { name: self.name, description: self.description, input_type, options: self.options }
    }

    /// The same command with these options.
    pub fn options(self, options: Vec<CommandOption>) -> (r: Self)
        ensures
            r.name == self.name,
            r.description == self.description,
            r.input_type == self.input_type,
            r.options == options,
    {
        CommandData {
            name: self.name,
            description: self.description,
            input_type: self.input_type,
            options,
        }
    }

    /// A builder with nothing set.
    pub fn builder() -> (r: CommandDataBuilder)
        ensures
            r.name is None,
            r.description is None,
            r.input_type is None,
            r.options is None,
    {
        CommandDataBuilder { name: None, description: None, input_type: None, options: None }
    }
}

/// What a builder lacks.
#[derive(Clone, Copy, Debug, PartialEq, Eq, Structural)]
pub enum BuilderError {
    /// No name was set.
    MissingName,
    /// No description was set.
    MissingDescription,
}

/// Collects the parts of a command. Name and description have to be set; the
/// command is a chat command without options unless said otherwise.
pub struct CommandDataBuilder {
    pub name: Option<String>,
    pub description: Option<String>,
    pub input_type: Option<CommandType>,
    pub options: Option<Vec<CommandOption>>,
}

impl CommandDataBuilder {
    pub fn name(self, name: String) -> (r: Self)
        ensures
            r.name == Some(name),
            r.description == self.description,
            r.input_type == self.input_type,
            r.options == self.options,
    {
        CommandDataBuilder {
            name: Some(name),
            description: self.description,
            input_type: self.input_type,
            options: self.options,
        }
    }

    pub fn description(self, description: String) -> (r: Self)
        ensures
            r.name == self.name,
            r.description == Some(description),
            r.input_type == self.input_type,
            r.options == self.options,
    {
        CommandDataBuilder {
            name: self.name,
            description: Some(description),
            input_type: self.input_type,
            options: self.options,
        }
    }

    pub fn input_type(self, input_type: CommandType) -> (r: Self)
        ensures
            r.name == self.name,
            r.description == self.description,
            r.input_type == Some(input_type),
            r.options == self.options,
    {
        CommandDataBuilder {
            name: self.name,
            description: self.description,
            input_type: Some(input_type),
            options: self.options,
        }
    }

    pub fn options(self, options: Vec<CommandOption>) -> (r: Self)
        ensures
            r.name == self.name,
            r.description == self.description,
            r.input_type == self.input_type,
            r.options == Some(options),
    {
        CommandDataBuilder {
            name: self.name,
            description: self.description,
            input_type: self.input_type,
            options: Some(options),
        }
    }

    /// The command, or what is missing for it. A missing name is reported
    /// before a missing description.
    pub fn build(self) -> (r: Result<CommandData, BuilderError>)
        ensures
            match r {
                Ok(data) => {
                    &&& self.name == Some(data.name)
                    &&& self.description == Some(data.description)
                    &&& data.input_type == match self.input_type {
                        Some(t) => t,
                        None => CommandType::ChatInput,
                    }
                    &&& match self.options {
                        Some(options) => data.options == options,
                        None => data.options@.len() == 0,
                    }
                },
                Err(BuilderError::MissingName) => self.name is None,
                Err(BuilderError::MissingDescription) => self.name is Some && self.description
                    is None,
            },
    {
        let name = match self.name {
            Some(name) => name,
            None => {
                return Err(BuilderError::MissingName);
            },
        };
        let description = match self.description {
            Some(description) => description,
            None => {
                return Err(BuilderError::MissingDescription);
            },
        };
        let input_type = match self.input_type {
            Some(t) => t,
            None => CommandType::ChatInput,
        };
        let options = match self.options {
            Some(options) => options,
            None => Vec::new(),
        };
        Ok(CommandData { name, description, input_type, options })
    }
}

/// Collects the parts of a text option. Name and description have to be set;
/// the option is not required and offers no choices unless said otherwise.
pub struct StringOptionBuilder {
    pub name: Option<String>,
    pub description: Option<String>,
    pub choices: Option<Vec<Param<String>>>,
    pub required: Option<bool>,
}

impl StringOptionBuilder {
    pub fn name(self, name: String) -> (r: Self)
        ensures
            r.name == Some(name),
            r.description == self.description,
            r.choices == self.choices,
            r.required == self.required,
    {
        StringOptionBuilder {
            name: Some(name),
            description: self.description,
            choices: self.choices,
            required: self.required,
        }
    }

    pub fn description(self, description: String) -> (r: Self)
        ensures
            r.name == self.name,
            r.description == Some(description),
            r.choices == self.choices,
            r.required == self.required,
    {
        StringOptionBuilder {
            name: self.name,
            description: Some(description),
            choices: self.choices,
            required: self.required,
        }
    }

    pub fn choices(self, choices: Vec<Param<String>>) -> (r: Self)
        ensures
            r.name == self.name,
            r.description == self.description,
            r.choices == Some(choices),
            r.required == self.required,
    {
        StringOptionBuilder {
            name: self.name,
            description: self.description,
            choices: Some(choices),
            required: self.required,
        }
    }

    pub fn required(self, required: bool) -> (r: Self)
        ensures
            r.name == self.name,
            r.description == self.description,
            r.choices == self.choices,
            r.required == Some(required),
    {
        StringOptionBuilder {
            name: self.name,
            description: self.description,
            choices: self.choices,
            required: Some(required),
        }
    }

    /// The option, or what is missing for it. A missing name is reported
    /// before a missing description.
    pub fn build(self) -> (r: Result<StringOption, BuilderError>)
        ensures
            match r {
                Ok(option) => {
                    &&& self.name == Some(option.name)
                    &&& self.description == Some(option.description)
                    &&& option.required == match self.required {
                        Some(b) => b,
                        None => false,
                    }
                    &&& match self.choices {
                        Some(choices) => option.choices == choices,
                        None => option.choices@.len() == 0,
                    }
                },
                Err(BuilderError::MissingName) => self.name is None,
                Err(BuilderError::MissingDescription) => self.name is Some && self.description
                    is None,
            },
    {
        let name = match self.name {
            Some(name) => name,
            None => {
                return Err(BuilderError::MissingName);
            },
        };
        let description = match self.description {
            Some(description) => description,
            None => {
                return Err(BuilderError::MissingDescription);
            },
        };
        let required = match self.required {
            Some(b) => b,
            None => false,
        };
        let choices = match self.choices {
            Some(choices) => choices,
            None => Vec::new(),
        };
        Ok(StringOption { name, description, choices, required })
    }
}

/// One command of an application.
#[derive(Clone, Copy)]
pub struct CommandIdentifier {
    command_pool: Commands,
    command_id: Snowflake<kind::Command>,
}

/// A command as the API gives it.
pub struct Command {
    pub id: CommandIdentifier,
    pub data: CommandData,
}

/// The path of the commands of an application, everywhere or in one guild.
pub open spec fn commands_path(application: u64, guild: Option<u64>) -> Seq<char> {
    match guild {
        Some(g) => "/applications/"@ + decimal_text(application as nat) + "/guilds/"@ + decimal_text(
            g as nat,
        ) + "/commands"@,
        None => "/applications/"@ + decimal_text(application as nat) + "/commands"@,
    }
}

/// The path of one command.
pub open spec fn command_path(application: u64, guild: Option<u64>, command: u64) -> Seq<char> {
    commands_path(application, guild) + "/"@ + decimal_text(command as nat)
}

impl Commands {
    /// The application whose commands these are.
    pub closed spec fn application(self) -> u64 {
        self.application_id@
    }

    /// The guild to which these commands are limited, if any.
    pub closed spec fn guild(self) -> Option<u64> {
        match self.guild_id {
            Some(g) => Some(g@),
            None => None,
        }
    }

    pub fn new(app: Snowflake<kind::Application>, guild: Option<Snowflake<kind::Guild>>) -> (r: Self)
        ensures
            r.application() == app@,
            r.guild() == match guild {
                Some(g) => Some(g@),
                None => None,
            },
    {
        Commands { application_id: app, guild_id: guild }
    }

    /// The command of these with this identifier.
    pub fn command(&self, id: Snowflake<kind::Command>) -> (r: CommandIdentifier)
        ensures
            r.pool() == *self,
            r.command() == id@,
    {
        CommandIdentifier { command_pool: *self, command_id: id }
    }

    /// The request for all of these commands.
    pub fn all(&self) -> (r: HttpRequest)
        ensures
            r.is(Method::Get, commands_path(self.application(), self.guild()), None, Seq::empty()),
    {
        HttpRequest::get(self.uri())
    }

    /// The request that makes a command of what `body` describes, as JSON text.
    pub fn create(&self, body: String) -> (r: HttpRequest)
        ensures
            r.is(
                Method::Post,
                commands_path(self.application(), self.guild()),
                Some(body@),
                Seq::empty(),
            ),
    {
        HttpRequest::post(self.uri(), body)
    }
}

impl Endpoint for Commands {
    open spec fn path(&self) -> Seq<char> {
        commands_path(self.application(), self.guild())
    }

    fn uri(&self) -> (r: String) {
        let mut r = String::from_str("/applications/");
        push_decimal(&mut r, self.application_id.as_int());
        match self.guild_id {
            Some(guild) => {
                r.append("/guilds/");
                push_decimal(&mut r, guild.as_int());
            },
            None => {},
        }
        r.append("/commands");
        assert(r@ =~= self.path());
        r
    }
}

impl CommandIdentifier {
    /// The commands that this one belongs to.
    pub closed spec fn pool(self) -> Commands {
        self.command_pool
    }

    /// The identifier of the command.
    pub closed spec fn command(self) -> u64 {
        self.command_id@
    }

    /// The request for this command.
    pub fn get(&self) -> (r: HttpRequest)
        ensures
            r.is(
                Method::Get,
                command_path(self.pool().application(), self.pool().guild(), self.command()),
                None,
                Seq::empty(),
            ),
    {
        HttpRequest::get(self.uri())
    }

    /// The request that deletes this command.
    pub fn delete(self) -> (r: HttpRequest)
        ensures
            r.is(
                Method::Delete,
                command_path(self.pool().application(), self.pool().guild(), self.command()),
                None,
                Seq::empty(),
            ),
    {
        HttpRequest::delete(self.uri())
    }
}

impl Endpoint for CommandIdentifier {
    open spec fn path(&self) -> Seq<char> {
        command_path(self.pool().application(), self.pool().guild(), self.command())
    }

    fn uri(&self) -> (r: String) {
        let mut r = self.command_pool.uri();
        r.append("/");
        push_decimal(&mut r, self.command_id.as_int());
        assert(r@ =~= self.path());
        r
    }
}

/// What stands for one command.
pub trait CommandResource {
    /// The command that this stands for.
    spec fn identifier(&self) -> CommandIdentifier;

    fn endpoint(&self) -> (r: CommandIdentifier)
        ensures
            r == self.identifier(),
    ;
}

impl CommandResource for CommandIdentifier {
    open spec fn identifier(&self) -> CommandIdentifier {
        *self
    }

    fn endpoint(&self) -> (r: CommandIdentifier) {
        *self
    }
}

impl CommandResource for Command {
    open spec fn identifier(&self) -> CommandIdentifier {
        self.id
    }

    fn endpoint(&self) -> (r: CommandIdentifier) {
        self.id
    }
}

} // verus!
