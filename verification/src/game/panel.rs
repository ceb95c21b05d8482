//! Panels: the fields and rows that show a game, and the widgets that build
//! them and take what a user pressed.

use vstd::prelude::*;
use vstd::string::*;
use crate::interaction::{MessageComponent, MessageInteraction};
use crate::kind;
use crate::message::{
    row_is_full, ActionRow, ActionRowComponent, Author, Button, ButtonStyle, Embed, Field, Message,
};
use crate::resource::Snowflake;
use crate::text::{same_text, signed_decimal, signed_decimal_text};

verus! {

/// How a step of a game ended.
pub enum Flow<T> {
    /// With a result.
    Return(T),
    /// Without one: the game goes on.
    Continue,
    /// With the end of the game.
    Exit,
}

impl<T> Flow<T> {
    /// Whether the game is over or the step gave a result.
    pub fn is_done(&self) -> (r: bool)
        ensures
            r == !(*self is Continue),
    {
        match self {
            Flow::Continue => false,
            _ => true,
        }
    }

    /// The flow of a step that may have found nothing to do: then the game
    /// goes on.
    pub fn from_option(value: Option<T>) -> (r: Self)
        ensures
            r == match value {
                Some(t) => Flow::Return(t),
                None => Flow::Continue,
            },
    {
        match value {
            Some(t) => Flow::Return(t),
            None => Flow::Continue,
        }
    }
}

/// What a panel shows.
pub struct GameMessage {
    pub fields: Vec<Field>,
    pub components: Vec<ActionRow>,
}

impl Default for GameMessage {
    fn default() -> (r: Self)
        ensures
            r.fields@.len() == 0,
            r.components@.len() == 0,
    {
        GameMessage { fields: Vec::new(), components: Vec::new() }
    }
}

/// The embed that shows the fields of a panel under the name and in the
/// colour of a game.
pub fn signed_embed(name: &str, color: u32, fields: Vec<Field>) -> (r: Embed)
    ensures
        r.author matches Some(author) && author.name@ == name@,
        r.color == Some(color),
        r.fields == fields,
        r.title is None,
        r.description is None,
        r.url is None,
{
    Embed::default().author(Author::new(name)).fields(fields).color(color)
}

/// What a game answers to an action.
pub enum ActionResponse<P> {
    /// Nothing changes.
    Nothing,
    /// The game is over.
    Exit,
    /// The action could not be carried out, for the reason shown.
    Error(GameMessage),
    /// The game moved on: the main panel is made anew.
    NextMain,
    /// The main panel is to be brought up to date.
    EditMain,
    /// A panel of this kind is shown to the user alone.
    Reply(P),
}

/// What a user pressed.
pub struct Press {
    pub custom_id: String,
    pub values: Vec<String>,
    pub user: Snowflake<kind::User>,
}

/// What a panel is built for: for something that a user pressed, or for
/// nothing in particular.
pub struct Event {
    pub press: Option<Press>,
}

/// Whether a component is the button that reports back under `id`, with this
/// look, label and state.
pub open spec fn is_action(
    c: ActionRowComponent,
    style: ButtonStyle,
    id: Seq<char>,
    label: Seq<char>,
    disabled: bool,
) -> bool {
    c matches ActionRowComponent::Button(
        Button::Action { style: s, custom_id, label: Some(l), disabled: d },
    ) && s == style && custom_id@ == id && l@ == label && d == disabled
}

/// Makes the button that reports back under `id`.
pub fn action_button(style: ButtonStyle, id: String, label: String, disabled: bool) -> (r:
    ActionRowComponent)
    ensures
        is_action(r, style, id@, label@, disabled),
{
    ActionRowComponent::Button(Button::Action { style, custom_id: id, label: Some(label), disabled })
}

/// The text made of one text after another.
pub fn join2(a: &str, b: &str) -> (r: String)
    ensures
        r@ == a@ + b@,
{
    let mut r = String::from_str(a);
    r.append(b);
    r
}

impl Event {
    /// The identifier of what was pressed.
    pub open spec fn pressed(self) -> Option<Seq<char>> {
        match self.press {
            Some(p) => Some(p.custom_id@),
            None => None,
        }
    }

    /// The event of building a panel for nothing in particular.
    pub fn none() -> (r: Self)
        ensures
            r.press is None,
    {
        Event { press: None }
    }

    /// The event of a user having pressed something on a message.
    pub fn component(interaction: &MessageInteraction<MessageComponent>) -> (r: Self)
        ensures
            r.press matches Some(p) && p.custom_id@ == interaction.data.custom_id@ && p.values@
                == interaction.data.values@ && p.user == interaction.user.id,
    {
        Event {
            press: Some(
                Press {
                    custom_id: interaction.data.custom_id.clone(),
                    values: copy_texts(&interaction.data.values),
                    user: interaction.user.id,
                },
            ),
        }
    }

    /// Whether what was pressed has this identifier.
    pub fn is_press_of(&self, id: &str) -> (r: bool)
        ensures
            r == (self.pressed() == Some(id@)),
    {
        match &self.press {
            Some(p) => same_text(p.custom_id.as_str(), id),
            None => false,
        }
    }

    /// A button as a component, and the user who pressed it if it is what
    /// was pressed. Only buttons that report back can have been pressed.
    pub fn button(&self, button: Button) -> (r: (ActionRowComponent, Option<Snowflake<kind::User>>))
        ensures
            r.0 == ActionRowComponent::Button(button),
            r.1 == match (button, self.press) {
                (Button::Action { custom_id, .. }, Some(p)) => if p.custom_id@ == custom_id@ {
                    Some(p.user)
                } else {
                    None
                },
                _ => None,
            },
    {
        let who = match (&button, &self.press) {
            (Button::Action { custom_id, .. }, Some(p)) => {
                if same_text(p.custom_id.as_str(), custom_id.as_str()) {
                    Some(p.user)
                } else {
                    None
                }
            },
            _ => None,
        };
        (ActionRowComponent::Button(button), who)
    }
}

/// Copies a list of texts.
pub fn copy_texts(texts: &Vec<String>) -> (r: Vec<String>)
    ensures
        r@ == texts@,
{
    let mut r: Vec<String> = Vec::new();
    let mut i: usize = 0;
    while i < texts.len()
        invariant
            i <= texts.len(),
            r@ == texts@.take(i as int),
        decreases texts.len() - i,
    {
        r.push(texts[i].clone());
        assert(r@ =~= texts@.take(i + 1));
        i = i + 1;
    }
    assert(texts@.take(texts.len() as int) =~= texts@);
    r
}

/// A number after a step down, a step up or no step: it moves by one
/// towards the bound and stays within it.
pub open spec fn stepped(val: i32, min: i32, max: i32, pressed: Option<Seq<char>>, name: Seq<char>) -> i32 {
    if pressed == Some(name + "__min"@) {
        let v = if val == i32::MIN {
            val
        } else {
            (val - 1) as i32
        };
        if v < min {
            min
        } else {
            v
        }
    } else if pressed == Some(name + "__max"@) {
        let v = if val == i32::MAX {
            val
        } else {
            (val + 1) as i32
        };
        if v > max {
            max
        } else {
            v
        }
    } else {
        val
    }
}

/// Whether a row is the one that shows a number: a label, a button that
/// steps down, the number itself, and a button that steps up. A button that
/// would step out of the bounds is disabled.
pub open spec fn is_number_row(row: ActionRow, name: Seq<char>, val: i32, min: i32, max: i32) -> bool {
    &&& row.components@.len() == 4
    &&& is_action(row.components@[0], ButtonStyle::Primary, name + "__label"@, name, true)
    &&& is_action(row.components@[1], ButtonStyle::Primary, name + "__min"@, "<"@, val == min)
    &&& is_action(
        row.components@[2],
        ButtonStyle::Secondary,
        name,
        signed_decimal_text(val as int),
        false,
    )
    &&& is_action(row.components@[3], ButtonStyle::Primary, name + "__max"@, ">"@, val == max)
}

/// Whether a row is the one to join and to leave a game by.
pub open spec fn is_join_row(row: ActionRow) -> bool {
    &&& row.components@.len() == 2
    &&& is_action(row.components@[0], ButtonStyle::Success, "join"@, "Join"@, false)
    &&& is_action(row.components@[1], ButtonStyle::Danger, "leave"@, "Leave"@, false)
}

/// Whether a user is among some users.
pub open spec fn among(users: Seq<Snowflake<kind::User>>, user: u64) -> bool {
    exists|i: int| 0 <= i < users.len() && users[i]@ == user
}

/// Some users without one of them.
pub open spec fn without(users: Seq<Snowflake<kind::User>>, user: u64) -> Seq<Snowflake<kind::User>>
    decreases users.len(),
{
    if users.len() == 0 {
        users
    } else if users.last()@ == user {
        without(users.drop_last(), user)
    } else {
        without(users.drop_last(), user).push(users.last())
    }
}

/// The users of a game after a press: one who joins is added at the end
/// unless already in, one who leaves is taken out.
pub open spec fn joined(users: Seq<Snowflake<kind::User>>, press: Option<Press>) -> Seq<
    Snowflake<kind::User>,
> {
    match press {
        Some(p) => if p.custom_id@ == "join"@ {
            if among(users, p.user@) {
                users
            } else {
                users.push(p.user)
            }
        } else if p.custom_id@ == "leave"@ {
            without(users, p.user@)
        } else {
            users
        },
        None => users,
    }
}

/// Tells whether a user is among some users.
pub fn contains_user(users: &Vec<Snowflake<kind::User>>, user: Snowflake<kind::User>) -> (r: bool)
    ensures
        r == among(users@, user@),
{
    let mut i: usize = 0;
    while i < users.len()
        invariant
            i <= users.len(),
            forall|k: int| 0 <= k < i ==> users@[k]@ != user@,
        decreases users.len() - i,
    {
        if users[i].as_int() == user.as_int() {
            return true;
        }
        i = i + 1;
    }
    false
}

/// Takes a user out of some users.
pub fn remove_user(users: &Vec<Snowflake<kind::User>>, user: Snowflake<kind::User>) -> (r: Vec<
    Snowflake<kind::User>,
>)
    ensures
        r@ == without(users@, user@),
{
    let mut r: Vec<Snowflake<kind::User>> = Vec::new();
    let mut i: usize = 0;
    while i < users.len()
        invariant
            i <= users.len(),
            r@ == without(users@.take(i as int), user@),
        decreases users.len() - i,
    {
        proof {
            assert(users@.take(i + 1).drop_last() =~= users@.take(i as int));
            assert(users@.take(i + 1).last() == users@[i as int]);
        }
        if users[i].as_int() != user.as_int() {
            r.push(users[i]);
        }
        i = i + 1;
    }
    assert(users@.take(users.len() as int) =~= users@);
    r
}

/// The rows of a panel after one more button: it goes into the last row
/// unless there is none or that row counts as full; then it starts a row.
pub open spec fn grows_by(before: Seq<ActionRow>, after: Seq<ActionRow>, button: ActionRowComponent) -> bool {
    if before.len() > 0 && !row_is_full(before.last().components@) {
        &&& after.len() == before.len()
        &&& after.drop_last() == before.drop_last()
        &&& after.last().components@ == before.last().components@.push(button)
    } else {
        &&& after.len() == before.len() + 1
        &&& after.drop_last() == before
        &&& after.last().components@ == seq![button]
    }
}

impl GameMessage {
    pub fn new(fields: Vec<Field>, components: Vec<ActionRow>) -> (r: Self)
        ensures
            r.fields == fields,
            r.components == components,
    {
        GameMessage { fields, components }
    }

    /// Whether the panel shows nothing.
    pub fn is_empty(&self) -> (r: bool)
        ensures
            r == (self.fields@.len() == 0 && self.components@.len() == 0),
    {
        self.fields.len() == 0 && self.components.len() == 0
    }

    /// The panel that a message shows: the fields of its first embed, and its rows.
    pub fn from(value: Message) -> (r: Self)
        requires
            value.embeds@.len() > 0,
        ensures
            r.fields == value.embeds@[0].fields,
            r.components == value.components,
    {
        let Message { id: _, author: _, content: _, embeds, components, attachments: _ } = value;
        let mut embeds = embeds;
        let first = embeds.swap_remove(0);
        GameMessage { fields: first.fields, components }
    }

    /// Adds the button of an action.
    pub fn append_action(&mut self, action: &str, style: ButtonStyle, name: String)
        ensures
            final(self).fields == old(self).fields,
            exists|button: ActionRowComponent|
                is_action(button, style, action@, name@, false) && grows_by(
                    old(self).components@,
                    final(self).components@,
                    button,
                ),
    {
        let button = action_button(style, String::from_str(action), name, false);
        let ghost before = self.components@;
        let n = self.components.len();
        let fits = n > 0 && !self.components[n - 1].is_full();
        if fits {
            let last = self.components.pop().unwrap();
            let mut components = last.components;
            components.push(button);
            self.components.push(ActionRow::new(components));
            assert(self.components@.drop_last() =~= before.drop_last());
        } else {
            let mut components: Vec<ActionRowComponent> = Vec::new();
            components.push(button);
            self.components.push(ActionRow::new(components));
            assert(self.components@.drop_last() =~= before);
        }
        assert(grows_by(before, self.components@, button));
    }

    /// Adds the row that shows a number, after taking the step that the
    /// event asks for.
    pub fn create_number(&mut self, event: &Event, name: String, val: &mut i32, min: i32, max: i32)
        ensures
            *final(val) == stepped(*old(val), min, max, event.pressed(), name@),
            final(self).fields == old(self).fields,
            final(self).components@.len() == old(self).components@.len() + 1,
            final(self).components@.drop_last() == old(self).components@,
            is_number_row(final(self).components@.last(), name@, *final(val), min, max),
    {
        let down = join2(name.as_str(), "__min");
        let up = join2(name.as_str(), "__max");
        if event.is_press_of(down.as_str()) {
            let v = if *val == i32::MIN {
                *val
            } else {
                *val - 1
            };
            *val = if v < min {
                min
            } else {
                v
            };
        } else if event.is_press_of(up.as_str()) {
            let v = if *val == i32::MAX {
                *val
            } else {
                *val + 1
            };
            *val = if v > max {
                max
            } else {
                v
            };
        }
        let mut row: Vec<ActionRowComponent> = Vec::new();
        row.push(
            action_button(
                ButtonStyle::Primary,
                join2(name.as_str(), "__label"),
                name.clone(),
                true,
            ),
        );
        row.push(action_button(ButtonStyle::Primary, down, String::from_str("<"), *val == min));
        row.push(
            action_button(ButtonStyle::Secondary, name.clone(), signed_decimal(*val as i64), false),
        );
        row.push(action_button(ButtonStyle::Primary, up, String::from_str(">"), *val == max));
        let ghost before = self.components@;
        self.components.push(ActionRow::new(row));
        assert(self.components@.drop_last() =~= before);
    }

    /// Adds the row to join and to leave by, after letting the user in or
    /// out as the event asks.
    pub fn create_join(&mut self, event: &Event, users: &mut Vec<Snowflake<kind::User>>)
        ensures
            final(users)@ == joined(old(users)@, event.press),
            final(self).fields == old(self).fields,
            final(self).components@.len() == old(self).components@.len() + 1,
            final(self).components@.drop_last() == old(self).components@,
            is_join_row(final(self).components@.last()),
    {
        let (join, joiner) = event.button(
            Button::Action {
                style: ButtonStyle::Success,
                custom_id: String::from_str("join"),
                label: Some(String::from_str("Join")),
                disabled: false,
            },
        );
        match joiner {
            Some(u) => {
                if !contains_user(users, u) {
                    users.push(u);
                }
            },
            None => {},
        }
        let (leave, leaver) = event.button(
            Button::Action {
                style: ButtonStyle::Danger,
                custom_id: String::from_str("leave"),
                label: Some(String::from_str("Leave")),
                disabled: false,
            },
        );
        match leaver {
            Some(u) => {
                let rest = remove_user(users, u);
                *users = rest;
            },
            None => {},
        }
        proof {
            reveal_strlit("join");
            reveal_strlit("leave");
            assert("join"@ != "leave"@) by {
                assert("join"@.len() == 4);
                assert("leave"@.len() == 5);
            }
        }
        let mut row: Vec<ActionRowComponent> = Vec::new();
        row.push(join);
        row.push(leave);
        let ghost before = self.components@;
        self.components.push(ActionRow::new(row));
        assert(self.components@.drop_last() =~= before);
    }
}

} // verus!
