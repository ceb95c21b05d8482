//! A setup made of options, one row each: menus, flags, numbers and the
//! list of players.

use vstd::prelude::*;
use vstd::string::*;
use crate::game::panel::{
    action_button, among, contains_user, is_action, without, Flow, GameMessage,
};
use crate::game::select::{contains_number, picks, read_picks};
use crate::game::table::{mark, mark_of, number_of, position};
use crate::kind;
use crate::message::{
    ActionRow, ActionRowComponent, ButtonStyle, Field, SelectOption, TextSelectMenu,
};
use crate::resource::Snowflake;
use crate::text::{
    chars_of, join_lines, joined_lines, push_char, signed_decimal, signed_decimal_text, texts_of,
};
use crate::user::user_mention;

verus! {

/// One option of a setup.
pub enum SetupOption {
    /// Entries of which any number can be picked, each with whether it is.
    MultiSelect(Vec<(String, bool)>),
    /// Flags, each with whether it is set.
    Flags(Vec<(String, bool)>),
    /// A number between a least and a greatest value: least, greatest, value.
    Number(i32, i32, i32),
    /// The users who play.
    Players(Vec<Snowflake<kind::User>>),
}

/// A setup: options with their names. The place of an option numbers its row.
pub struct Setup {
    pub options: Vec<(String, SetupOption)>,
}

/// The identifier made of the character of a number and what follows.
pub open spec fn marked(k: int, rest: Seq<char>) -> Seq<char> {
    seq![mark_of(k)] + rest
}

/// Writes the identifier made of the character of a number and what follows.
pub fn write_marked(k: usize, rest: &str) -> (r: String)
    requires
        k < 64,
    ensures
        r@ == marked(k as int, rest@),
{
    let mut r = String::new();
    push_char(&mut r, mark(k));
    r.append(rest);
    r
}

/// The entries of a menu after a pick: those are picked whose number one of
/// the picked values stands for.
pub open spec fn picked_entries(before: Seq<(String, bool)>, values: Seq<String>) -> Seq<(String, bool)> {
    Seq::new(before.len(), |i: int| (before[i].0, picks(values, before.len()).contains(i as usize)))
}

/// The flag that a press is on: the one whose number the identifier goes on with.
pub open spec fn flag_at(rest: Seq<char>, flags: nat) -> Option<usize> {
    if rest.len() == 0 {
        None
    } else {
        match number_of(rest[0]) {
            Some(i) => if i < flags {
                Some(i)
            } else {
                None
            },
            None => None,
        }
    }
}

/// Whether an option is what another becomes by a press. `rest` is the
/// identifier of what was pressed, without its first character.
pub open spec fn becomes(
    before: SetupOption,
    after: SetupOption,
    rest: Seq<char>,
    values: Seq<String>,
    user: Snowflake<kind::User>,
) -> bool {
    match (before, after) {
        (SetupOption::MultiSelect(menu), SetupOption::MultiSelect(now)) => now@ == picked_entries(
            menu@,
            values,
        ),
        (SetupOption::Flags(menu), SetupOption::Flags(now)) => match flag_at(rest, menu@.len()) {
            Some(i) => now@ == menu@.update(i as int, (menu@[i as int].0, !menu@[i as int].1)),
            None => false,
        },
        (SetupOption::Number(min, max, val), _) => rest.len() > 0 && if rest[0] == 'd' && val > min {
            after == SetupOption::Number(min, max, (val - 1) as i32)
        } else if rest[0] == 'i' && val < max {
            after == SetupOption::Number(min, max, (val + 1) as i32)
        } else {
            false
        },
        (SetupOption::Players(users), SetupOption::Players(now)) => rest.len() > 0 && if rest[0]
            == 'j' {
            !among(users@, user@) && now@ == users@.push(user)
        } else if rest[0] == 'l' {
            among(users@, user@) && now@ == users@.remove(first_user_at(users@, user@))
        } else {
            false
        },
        _ => false,
    }
}

/// Whether a press changes an option at all.
pub open spec fn changes(before: SetupOption, rest: Seq<char>, user: Snowflake<kind::User>) -> bool {
    match before {
        SetupOption::MultiSelect(_) => true,
        SetupOption::Flags(menu) => flag_at(rest, menu@.len()) is Some,
        SetupOption::Number(min, max, val) => rest.len() > 0 && ((rest[0] == 'd' && val > min) || (
        rest[0] == 'i' && val < max)),
        SetupOption::Players(users) => rest.len() > 0 && ((rest[0] == 'j' && !among(users@, user@))
            || (rest[0] == 'l' && among(users@, user@))),
    }
}

/// Where a user stands first among some users; their number where nowhere.
pub open spec fn first_user_at(users: Seq<Snowflake<kind::User>>, user: u64) -> int
    decreases users.len(),
{
    if users.len() == 0 || users[0]@ == user {
        0
    } else {
        1 + first_user_at(users.drop_first(), user)
    }
}

/// Finds where a user stands first among some users.
pub fn find_user(users: &Vec<Snowflake<kind::User>>, user: Snowflake<kind::User>) -> (r: usize)
    ensures
        r == first_user_at(users@, user@),
        r <= users@.len(),
        r < users@.len() <==> among(users@, user@),
{
    let mut i: usize = 0;
    assert(users@.skip(0) =~= users@);
    while i < users.len() && users[i].as_int() != user.as_int()
        invariant
            i <= users.len(),
            first_user_at(users@, user@) == i + first_user_at(users@.skip(i as int), user@),
            forall|k: int| 0 <= k < i ==> users@[k]@ != user@,
        decreases users.len() - i,
    {
        assert(users@.skip(i as int).drop_first() =~= users@.skip(i + 1));
        i = i + 1;
    }
    proof {
        if i < users.len() {
            assert(users@.skip(i as int)[0] == users@[i as int]);
        }
    }
    i
}

/// Takes a pick in a menu: the entries are picked that the values stand for.
pub fn pick_entries(menu: Vec<(String, bool)>, values: &Vec<String>) -> (r: Vec<(String, bool)>)
    ensures
        r@ == picked_entries(menu@, values@),
{
    let count = menu.len();
    let chosen = read_picks(values, count);
    let ghost all = menu@;
    let mut r: Vec<(String, bool)> = Vec::new();
    for entry in it: menu
        invariant
            it.seq() == all,
            count == all.len(),
            chosen@ == picks(values@, count as nat),
            r@.len() == it.index(),
            forall|i: int|
                0 <= i < it.index() ==> #[trigger] r@[i] == (
                    all[i].0,
                    chosen@.contains(i as usize),
                ),
    {
        let i = r.len();
        let (name, _) = entry;
        r.push((name, contains_number(&chosen, i)));
    }
    assert(r@ =~= picked_entries(all, values@));
    r
}

/// Takes a press on an option. `chars` is the identifier of what was
/// pressed; its first character numbered the option.
pub fn press_option(
    option: SetupOption,
    chars: &Vec<char>,
    values: &Vec<String>,
    user: Snowflake<kind::User>,
) -> (r: (SetupOption, bool))
    requires
        chars@.len() > 0,
    ensures
        r.1 == changes(option, chars@.drop_first(), user),
        r.1 ==> becomes(option, r.0, chars@.drop_first(), values@, user),
        !r.1 ==> r.0 == option,
{
    let ghost rest = chars@.drop_first();
    proof {
        if chars.len() > 1 {
            assert(rest[0] == chars@[1]);
        }
    }
    match option {
        SetupOption::MultiSelect(menu) => (SetupOption::MultiSelect(pick_entries(menu, values)), true),
        SetupOption::Flags(menu) => {
            let i = if chars.len() > 1 {
                position(chars[1])
            } else {
                None
            };
            match i {
                Some(i) => {
                    if i < menu.len() {
                        let ghost was = menu@;
                        let mut menu = menu;
                        let (flag, set) = menu.remove(i);
                        menu.insert(i, (flag, !set));
                        assert(menu@ =~= was.update(i as int, (was[i as int].0, !was[i as int].1)));
                        (SetupOption::Flags(menu), true)
                    } else {
                        (SetupOption::Flags(menu), false)
                    }
                },
                None => (SetupOption::Flags(menu), false),
            }
        },
        SetupOption::Number(min, max, val) => {
            if chars.len() > 1 && chars[1] == 'd' && val > min {
                (SetupOption::Number(min, max, val - 1), true)
            } else if chars.len() > 1 && chars[1] == 'i' && val < max {
                (SetupOption::Number(min, max, val + 1), true)
            } else {
                (SetupOption::Number(min, max, val), false)
            }
        },
        SetupOption::Players(users) => {
            if chars.len() > 1 && chars[1] == 'j' {
                if contains_user(&users, user) {
                    (SetupOption::Players(users), false)
                } else {
                    let mut users = users;
                    users.push(user);
                    (SetupOption::Players(users), true)
                }
            } else if chars.len() > 1 && chars[1] == 'l' {
                let at = find_user(&users, user);
                if at < users.len() {
                    let mut users = users;
                    users.remove(at);
                    (SetupOption::Players(users), true)
                } else {
                    (SetupOption::Players(users), false)
                }
            } else {
                (SetupOption::Players(users), false)
            }
        },
    }
}

impl Setup {
    /// Takes a press: the first character of its identifier numbers the
    /// option, and what follows says what to do with it.
    ///
    /// A pick in a menu sets which entries are picked. A press on a flag,
    /// whose number follows, turns the flag over. A `d` or an `i` moves a
    /// number down or up by one, within its bounds. A `j` lets the user
    /// join unless already in, an `l` lets the user leave if in. Any other
    /// press changes nothing, and the game goes on.
    pub fn update(&mut self, custom_id: &str, values: &Vec<String>, user: Snowflake<kind::User>) -> (r:
        Flow<()>)
        ensures
            final(self).options@.len() == old(self).options@.len(),
            ({
                let id = custom_id@;
                let at = if id.len() > 0 {
                    number_of(id[0])
                } else {
                    None
                };
                match at {
                    Some(oi) => if oi < old(self).options@.len() && changes(
                        old(self).options@[oi as int].1,
                        id.drop_first(),
                        user,
                    ) {
                        &&& r is Return
                        &&& forall|k: int|
                            0 <= k < old(self).options@.len() && k != oi ==> final(self).options@[k]
                                == old(self).options@[k]
                        &&& final(self).options@[oi as int].0 == old(self).options@[oi as int].0
                        &&& becomes(
                            old(self).options@[oi as int].1,
                            final(self).options@[oi as int].1,
                            id.drop_first(),
                            values@,
                            user,
                        )
                    } else {
                        r is Continue && final(self).options@ == old(self).options@
                    },
                    None => r is Continue && final(self).options@ == old(self).options@,
                }
            }),
    {
        let chars = chars_of(custom_id);
        if chars.len() == 0 {
            return Flow::Continue;
        }
        let oi = match position(chars[0]) {
            Some(oi) => oi,
            None => {
                return Flow::Continue;
            },
        };
        if oi >= self.options.len() {
            return Flow::Continue;
        }
        let ghost before = self.options@;
        let (name, option) = self.options.remove(oi);
        let (next, changed) = press_option(option, &chars, values, user);
        self.options.insert(oi, (name, next));
        proof {
            assert(before[oi as int] == (name, option));
            if !changed {
                assert(self.options@ =~= before);
            }
            assert forall|k: int| 0 <= k < before.len() && k != oi implies self.options@[k]
                == before[k] by {}
        }
        if changed {
            Flow::Return(())
        } else {
            Flow::Continue
        }
    }
}

/// Whether a row shows an option at a place.
pub open spec fn shows(row: ActionRow, oi: int, name: Seq<char>, option: SetupOption) -> bool {
    let c = row.components@;
    match option {
        SetupOption::MultiSelect(menu) => {
            &&& c.len() == 1
            &&& c[0] matches ActionRowComponent::TextSelectMenu(m) && {
                &&& m.custom_id@ == marked(oi, Seq::empty())
                &&& m.placeholder matches Some(p) && p@ == name
                &&& m.min_values == 0
                &&& m.max_values == menu@.len()
                &&& !m.disabled
                &&& m.options@.len() == menu@.len()
                &&& forall|i: int|
                    0 <= i < menu@.len() ==> {
                        let o = #[trigger] m.options@[i];
                        &&& o.label@ == menu@[i].0@
                        &&& o.value@ == marked(i, Seq::empty())
                        &&& o.description is None
                        &&& o.default == menu@[i].1
                    }
            }
        },
        SetupOption::Flags(menu) => {
            &&& c.len() == menu@.len() + 1
            &&& is_action(c[0], ButtonStyle::Primary, "_label_"@ + marked(oi, Seq::empty()), name, true)
            &&& forall|i: int|
                0 <= i < menu@.len() ==> is_action(
                    #[trigger] c[i + 1],
                    if menu@[i].1 {
                        ButtonStyle::Success
                    } else {
                        ButtonStyle::Secondary
                    },
                    marked(oi, marked(i, Seq::empty())),
                    menu@[i].0@,
                    false,
                )
        },
        SetupOption::Number(min, max, val) => {
            &&& c.len() == 4
            &&& is_action(c[0], ButtonStyle::Primary, "_label_"@ + marked(oi, Seq::empty()), name, true)
            &&& is_action(c[1], ButtonStyle::Primary, marked(oi, "d"@), "<"@, val <= min)
            &&& is_action(
                c[2],
                ButtonStyle::Secondary,
                marked(oi, "v"@),
                signed_decimal_text(val as int),
                false,
            )
            &&& is_action(c[3], ButtonStyle::Primary, marked(oi, "i"@), ">"@, val >= max)
        },
        SetupOption::Players(_) => {
            &&& c.len() == 2
            &&& is_action(c[0], ButtonStyle::Success, marked(oi, "j"@), "Join"@, false)
            &&& is_action(c[1], ButtonStyle::Danger, marked(oi, "l"@), "Leave"@, false)
        },
    }
}

impl Setup {
    /// Whether the setup can be shown: a message has room for five rows, a
    /// menu for sixty-four entries, and a row for four flags beside their label.
    pub open spec fn fits(self) -> bool {
        &&& self.options@.len() <= 5
        &&& forall|k: int|
            0 <= k < self.options@.len() ==> match (#[trigger] self.options@[k]).1 {
                SetupOption::MultiSelect(menu) => menu@.len() <= 64,
                SetupOption::Flags(menu) => menu@.len() <= 4,
                _ => true,
            }
    }

    /// Tells whether the setup can be shown.
    pub fn can_render(&self) -> (r: bool)
        ensures
            r == self.fits(),
    {
        if self.options.len() > 5 {
            return false;
        }
        let mut k: usize = 0;
        while k < self.options.len()
            invariant
                k <= self.options.len() <= 5,
                forall|j: int|
                    0 <= j < k ==> match (#[trigger] self.options@[j]).1 {
                        SetupOption::MultiSelect(menu) => menu@.len() <= 64,
                        SetupOption::Flags(menu) => menu@.len() <= 4,
                        _ => true,
                    },
            decreases self.options.len() - k,
        {
            let fits = match &self.options[k].1 {
                SetupOption::MultiSelect(menu) => menu.len() <= 64,
                SetupOption::Flags(menu) => menu.len() <= 4,
                _ => true,
            };
            if !fits {
                return false;
            }
            k = k + 1;
        }
        true
    }

    /// The rows that show the setup: one for each option, in order.
    pub fn render(&self) -> (rows: Vec<ActionRow>)
        requires
            self.fits(),
        ensures
            rows@.len() == self.options@.len(),
            forall|k: int|
                0 <= k < rows@.len() ==> shows(
                    #[trigger] rows@[k],
                    k,
                    self.options@[k].0@,
                    self.options@[k].1,
                ),
    {
        let mut rows: Vec<ActionRow> = Vec::new();
        let mut oi: usize = 0;
        while oi < self.options.len()
            invariant
                self.fits(),
                oi <= self.options.len(),
                rows@.len() == oi,
                forall|k: int|
                    0 <= k < oi ==> shows(
                        #[trigger] rows@[k],
                        k,
                        self.options@[k].0@,
                        self.options@[k].1,
                    ),
            decreases self.options.len() - oi,
        {
            let name = &self.options[oi].0;
            let option = &self.options[oi].1;
            let row = render_option(oi, name, option);
            rows.push(row);
            oi = oi + 1;
        }
        rows
    }
}

/// The row that shows an option at a place.
pub fn render_option(oi: usize, name: &String, option: &SetupOption) -> (row: ActionRow)
    requires
        oi < 64,
        match *option {
            SetupOption::MultiSelect(menu) => menu@.len() <= 64,
            SetupOption::Flags(menu) => menu@.len() <= 4,
            _ => true,
        },
    ensures
        shows(row, oi as int, name@, *option),
{
    let mut c: Vec<ActionRowComponent> = Vec::new();
    match option {
        SetupOption::MultiSelect(menu) => {
            let mut options: Vec<SelectOption> = Vec::new();
            let mut i: usize = 0;
            while i < menu.len()
                invariant
                    i <= menu.len() <= 64,
                    options@.len() == i,
                    forall|k: int|
                        0 <= k < i ==> {
                            let o = #[trigger] options@[k];
                            &&& o.label@ == menu@[k].0@
                            &&& o.value@ == marked(k, Seq::empty())
                            &&& o.description is None
                            &&& o.default == menu@[k].1
                        },
                decreases menu.len() - i,
            {
                options.push(
                    SelectOption {
                        label: menu[i].0.clone(),
                        value: write_marked(i, ""),
                        description: None,
                        default: menu[i].1,
                    },
                );
                proof {
                    reveal_strlit("");
                    assert(marked(i as int, ""@) =~= marked(i as int, Seq::empty()));
                }
                i = i + 1;
            }
            proof {
                reveal_strlit("");
                assert(marked(oi as int, ""@) =~= marked(oi as int, Seq::empty()));
            }
            c.push(
                ActionRowComponent::TextSelectMenu(
                    TextSelectMenu {
                        custom_id: write_marked(oi, ""),
                        options,
                        placeholder: Some(name.clone()),
                        min_values: 0,
                        max_values: menu.len(),
                        disabled: false,
                    },
                ),
            );
        },
        SetupOption::Flags(menu) => {
            c.push(label_button(oi, name));
            let mut i: usize = 0;
            while i < menu.len()
                invariant
                    i <= menu.len() <= 4,
                    oi < 64,
                    c@.len() == i + 1,
                    is_action(
                        c@[0],
                        ButtonStyle::Primary,
                        "_label_"@ + marked(oi as int, Seq::empty()),
                        name@,
                        true,
                    ),
                    forall|k: int|
                        0 <= k < i ==> is_action(
                            #[trigger] c@[k + 1],
                            if menu@[k].1 {
                                ButtonStyle::Success
                            } else {
                                ButtonStyle::Secondary
                            },
                            marked(oi as int, marked(k, Seq::empty())),
                            menu@[k].0@,
                            false,
                        ),
                decreases menu.len() - i,
            {
                let style = if menu[i].1 {
                    ButtonStyle::Success
                } else {
                    ButtonStyle::Secondary
                };
                let inner = write_marked(i, "");
                let id = write_marked(oi, inner.as_str());
                proof {
                    reveal_strlit("");
                    assert(marked(i as int, ""@) =~= marked(i as int, Seq::empty()));
                }
                let ghost before = c@;
                c.push(action_button(style, id, menu[i].0.clone(), false));
                proof {
                    assert forall|k: int| 0 <= k < i + 1 implies is_action(
                        #[trigger] c@[k + 1],
                        if menu@[k].1 {
                            ButtonStyle::Success
                        } else {
                            ButtonStyle::Secondary
                        },
                        marked(oi as int, marked(k, Seq::empty())),
                        menu@[k].0@,
                        false,
                    ) by {
                        if k < i {
                            assert(c@[k + 1] == before[k + 1]);
                        }
                    }
                    assert(c@[0] == before[0]);
                }
                i = i + 1;
            }
        },
        SetupOption::Number(min, max, val) => {
            c.push(label_button(oi, name));
            c.push(
                action_button(
                    ButtonStyle::Primary,
                    write_marked(oi, "d"),
                    String::from_str("<"),
                    *val <= *min,
                ),
            );
            c.push(
                action_button(
                    ButtonStyle::Secondary,
                    write_marked(oi, "v"),
                    signed_decimal(*val as i64),
                    false,
                ),
            );
            c.push(
                action_button(
                    ButtonStyle::Primary,
                    write_marked(oi, "i"),
                    String::from_str(">"),
                    *val >= *max,
                ),
            );
        },
        SetupOption::Players(_) => {
            c.push(
                action_button(
                    ButtonStyle::Success,
                    write_marked(oi, "j"),
                    String::from_str("Join"),
                    false,
                ),
            );
            c.push(
                action_button(
                    ButtonStyle::Danger,
                    write_marked(oi, "l"),
                    String::from_str("Leave"),
                    false,
                ),
            );
        },
    }
    ActionRow::new(c)
}

/// The button that names an option: it cannot be pressed.
pub fn label_button(oi: usize, name: &String) -> (r: ActionRowComponent)
    requires
        oi < 64,
    ensures
        is_action(
            r,
            ButtonStyle::Primary,
            "_label_"@ + marked(oi as int, Seq::empty()),
            name@,
            true,
        ),
{
    let mut id = String::from_str("_label_");
    push_char(&mut id, mark(oi));
    assert(id@ =~= "_label_"@ + marked(oi as int, Seq::empty()));
    action_button(ButtonStyle::Primary, id, name.clone(), true)
}

/// The mentions of some users, one to a line.
pub open spec fn mentions_of(users: Seq<Snowflake<kind::User>>) -> Seq<char> {
    joined_lines(Seq::new(users.len(), |i: int| user_mention(users[i]@)))
}

/// What a lobby says of its players: their mentions, or that there are none.
pub open spec fn lobby_text(users: Seq<Snowflake<kind::User>>) -> Seq<char> {
    if mentions_of(users).len() == 0 {
        "*None.*"@
    } else {
        mentions_of(users)
    }
}

/// Writes the mentions of some users, one to a line.
pub fn write_mentions(users: &Vec<Snowflake<kind::User>>) -> (r: String)
    ensures
        r@ == mentions_of(users@),
{
    let mut lines: Vec<String> = Vec::new();
    let mut i: usize = 0;
    while i < users.len()
        invariant
            i <= users.len(),
            lines@.len() == i,
            forall|k: int| 0 <= k < i ==> (#[trigger] lines@[k])@ == user_mention(users@[k]@),
        decreases users.len() - i,
    {
        lines.push(users[i].mention());
        i = i + 1;
    }
    let r = join_lines(&lines);
    assert(texts_of(lines@) =~= Seq::new(users@.len(), |i: int| user_mention(users@[i]@)));
    r
}

/// The options that the lobby of a new game has: two packs to pick from,
/// two rules, the points that win, the cards of a hand, and the players, of
/// whom the user who called for the game is the first.
pub fn lobby_options(user: Snowflake<kind::User>) -> (r: Setup)
    ensures
        r.fits(),
        r.options@.len() == 5,
        r.options@[0].0@ == "Packs"@,
        r.options@[1].0@ == "Rules"@,
        r.options@[2].0@ == "Max points"@ && r.options@[2].1 == SetupOption::Number(1, i32::MAX, 8),
        r.options@[3].0@ == "Hand cards"@ && r.options@[3].1 == SetupOption::Number(5, 20, 10),
        r.options@[4].0@ == "Players"@,
        r.options@[0].1 matches SetupOption::MultiSelect(menu) && menu@.len() == 2 && menu@[0].0@
            == "CAH Base"@ && menu@[0].1 && menu@[1].0@ == "EPPgroep"@ && !menu@[1].1,
        r.options@[1].1 matches SetupOption::Flags(menu) && menu@.len() == 2 && menu@[0].0@
            == "Rando Cardrissian"@ && menu@[0].1 && menu@[1].0@ == "Double or nothing"@
            && menu@[1].1,
        r.options@[4].1 matches SetupOption::Players(users) && users@ == seq![user],
{
    let mut packs: Vec<(String, bool)> = Vec::new();
    packs.push((String::from_str("CAH Base"), true));
    packs.push((String::from_str("EPPgroep"), false));
    let mut rules: Vec<(String, bool)> = Vec::new();
    rules.push((String::from_str("Rando Cardrissian"), true));
    rules.push((String::from_str("Double or nothing"), true));
    let mut users: Vec<Snowflake<kind::User>> = Vec::new();
    users.push(user);
    let mut options: Vec<(String, SetupOption)> = Vec::new();
    options.push((String::from_str("Packs"), SetupOption::MultiSelect(packs)));
    options.push((String::from_str("Rules"), SetupOption::Flags(rules)));
    options.push((String::from_str("Max points"), SetupOption::Number(1, i32::MAX, 8)));
    options.push((String::from_str("Hand cards"), SetupOption::Number(5, 20, 10)));
    options.push((String::from_str("Players"), SetupOption::Players(users)));
    Setup { options }
}

impl Setup {
    /// Whether the setup is that of a lobby: its fifth and last option is
    /// the list of the players.
    pub open spec fn is_lobby(self) -> bool {
        self.fits() && self.options@.len() == 5 && self.options@[4].1 is Players
    }

    /// Tells whether the setup is that of a lobby.
    pub fn can_render_lobby(&self) -> (r: bool)
        ensures
            r == self.is_lobby(),
    {
        if !self.can_render() || self.options.len() != 5 {
            return false;
        }
        match &self.options[4].1 {
            SetupOption::Players(_) => true,
            _ => false,
        }
    }

    /// The panel of a lobby: the rows of the setup, with the button to start
    /// beside the buttons to join and to leave, and the list of the players.
    pub fn render_lobby(&self) -> (r: GameMessage)
        requires
            self.is_lobby(),
        ensures
            r.components@.len() == 5,
            forall|k: int|
                0 <= k < 4 ==> shows(
                    #[trigger] r.components@[k],
                    k,
                    self.options@[k].0@,
                    self.options@[k].1,
                ),
            r.components@[4].components@.len() == 3,
            is_action(
                r.components@[4].components@[0],
                ButtonStyle::Success,
                marked(4, "j"@),
                "Join"@,
                false,
            ),
            is_action(
                r.components@[4].components@[1],
                ButtonStyle::Danger,
                marked(4, "l"@),
                "Leave"@,
                false,
            ),
            is_action(r.components@[4].components@[2], ButtonStyle::Primary, "Es"@, "Start"@, false),
            r.fields@.len() == 1,
            r.fields@[0].name@ == "Players"@,
            self.options@[4].1 matches SetupOption::Players(users) && r.fields@[0].value@
                == lobby_text(users@),
            !r.fields@[0].inline,
    {
        let mut rows = self.render();
        let ghost rendered = rows@;
        let last = rows.pop().unwrap();
        let mut buttons = last.components;
        buttons.push(
            action_button(
                ButtonStyle::Primary,
                String::from_str("Es"),
                String::from_str("Start"),
                false,
            ),
        );
        rows.push(ActionRow::new(buttons));
        proof {
            assert(shows(rendered[4], 4, self.options@[4].0@, self.options@[4].1));
            assert forall|k: int| 0 <= k < 4 implies shows(
                #[trigger] rows@[k],
                k,
                self.options@[k].0@,
                self.options@[k].1,
            ) by {
                assert(rows@[k] == rendered[k]);
            }
        }
        let mut text = match &self.options[4].1 {
            SetupOption::Players(users) => write_mentions(users),
            _ => String::new(),
        };
        if text.as_str().unicode_len() == 0 {
            text = String::from_str("*None.*");
        }
        let mut fields: Vec<Field> = Vec::new();
        fields.push(Field::new("Players", text.as_str()));
        GameMessage::new(fields, rows)
    }
}

} // verus!
