//! Before the game: who plays, with which packs, and by which rules.

use vstd::prelude::*;
use vstd::string::*;
use crate::cah::cards::{Packs, PlayerKind};
use crate::game::panel::{
    is_action, is_number_row, joined, stepped, Event, GameMessage};
use crate::game::select::{is_select_row, selected_after};
use crate::kind;
use crate::message::{row_is_full, ButtonStyle, Field};
use crate::resource::Snowflake;
use crate::text::same_text;

verus! {

/// What a player can ask of the game.
#[derive(Clone, Copy, Debug, PartialEq, Eq, Structural)]
pub enum Action {
    Start,
    ShowHand,
    ChangeHand,
    Continue,
    Done,
}

impl Action {
    /// The name of the action, which is also the identifier of its button.
    pub open spec fn name_text(self) -> Seq<char> {
        match self {
            Action::Start => "Start"@,
            Action::ShowHand => "ShowHand"@,
            Action::ChangeHand => "ChangeHand"@,
            Action::Continue => "Continue"@,
            Action::Done => "Done"@,
        }
    }

    pub fn name(self) -> (r: &'static str)
        ensures
            r@ == self.name_text(),
    {
        match self {
            Action::Start => "Start",
            Action::ShowHand => "ShowHand",
            Action::ChangeHand => "ChangeHand",
            Action::Continue => "Continue",
            Action::Done => "Done",
        }
    }

    /// The action with a name.
    pub fn from_name(name: &str) -> (r: Option<Action>)
        ensures
            r matches Some(a) ==> a.name_text() == name@,
            r is None ==> forall|a: Action| a.name_text() != name@,
    {
        if same_text(name, "Start") {
            Some(Action::Start)
        } else if same_text(name, "ShowHand") {
            Some(Action::ShowHand)
        } else if same_text(name, "ChangeHand") {
            Some(Action::ChangeHand)
        } else if same_text(name, "Continue") {
            Some(Action::Continue)
        } else if same_text(name, "Done") {
            Some(Action::Done)
        } else {
            None
        }
    }
}

/// The panels of the game.
#[derive(Clone, Copy, Debug, PartialEq, Eq, Structural)]
pub enum Panel {
    /// The panel that everyone sees.
    Main,
    /// The hand of one player, which that player alone sees.
    Hand,
}

impl Panel {
    pub open spec fn name_text(self) -> Seq<char> {
        match self {
            Panel::Main => "Main"@,
            Panel::Hand => "Hand"@,
        }
    }

    pub fn name(self) -> (r: &'static str)
        ensures
            r@ == self.name_text(),
    {
        match self {
            Panel::Main => "Main",
            Panel::Hand => "Hand",
        }
    }

    /// The panel with a name.
    pub fn from_name(name: &str) -> (r: Option<Panel>)
        ensures
            r matches Some(p) ==> p.name_text() == name@,
            r is None ==> forall|p: Panel| p.name_text() != name@,
    {
        if same_text(name, "Main") {
            Some(Panel::Main)
        } else if same_text(name, "Hand") {
            Some(Panel::Hand)
        } else {
            None
        }
    }
}

impl Default for Panel {
    fn default() -> (r: Self)
        ensures
            r == Panel::Main,
    {
        Panel::Main
    }
}

/// The state of a game that has not started.
pub struct Setup {
    pub packs: Packs,
    /// The places of the packs that are played with.
    pub selected_packs: Vec<usize>,
    /// How many players answer at random.
    pub bots: i32,
    /// How many cards make a hand.
    pub cards: i32,
    /// How many points win the game.
    pub points: i32,
    pub users: Vec<Snowflake<kind::User>>,
}

/// The players of a game: the users in the order in which they joined, then
/// the random players, numbered from zero.
pub open spec fn players_of(users: Seq<Snowflake<kind::User>>, bots: i32) -> Seq<PlayerKind> {
    Seq::new(
        users.len() + (if bots > 0 {
            bots as nat
        } else {
            0
        }),
        |i: int|
            if i < users.len() {
                PlayerKind::User(users[i])
            } else {
                PlayerKind::Rando((i - users.len()) as usize)
            },
    )
}

/// The names of some players, one to a line.
pub open spec fn names_of(players: Seq<PlayerKind>) -> Seq<char>
    decreases players.len(),
{
    if players.len() == 0 {
        Seq::empty()
    } else if players.len() == 1 {
        players[0].name()
    } else {
        names_of(players.drop_last()) + "\n"@ + players.last().name()
    }
}

/// What the panel says of the players: their names, or that there are none.
pub open spec fn players_text(players: Seq<PlayerKind>) -> Seq<char> {
    if names_of(players).len() == 0 {
        "*None.*"@
    } else {
        names_of(players)
    }
}

/// Writes the names of some players, one to a line.
pub fn write_names(players: &Vec<PlayerKind>) -> (r: String)
    requires
        forall|i: int| 0 <= i < players@.len() ==> (#[trigger] players@[i]).numbered(),
    ensures
        r@ == names_of(players@),
{
    let mut r = String::new();
    let mut i: usize = 0;
    while i < players.len()
        invariant
            i <= players.len(),
            forall|k: int| 0 <= k < players@.len() ==> (#[trigger] players@[k]).numbered(),
            r@ == names_of(players@.take(i as int)),
        decreases players.len() - i,
    {
        proof {
            assert(players@.take(i + 1).drop_last() =~= players@.take(i as int));
            assert(players@.take(i + 1).last() == players@[i as int]);
            assert(players@.take(i + 1)[0] == players@[0]);
        }
        if i > 0 {
            r.append("\n");
        }
        let name = players[i].to_text();
        r.append(name.as_str());
        proof {
            if i == 0 {
                assert(r@ =~= players@[0].name());
            }
        }
        i = i + 1;
    }
    assert(players@.take(players.len() as int) =~= players@);
    r
}

impl Setup {
    /// The setup that the panel shows after an event: packs, numbers and
    /// users as the widgets leave them.
    pub open spec fn after(self, event: Event) -> Setup {
        Setup {
            packs: self.packs,
            selected_packs: self.selected_packs,
            bots: stepped(self.bots, 0, i32::MAX, event.pressed(), "Bots"@),
            cards: stepped(self.cards, 5, 25, event.pressed(), "Cards"@),
            points: stepped(self.points, 1, i32::MAX, event.pressed(), "Points"@),
            users: self.users,
        }
    }

    /// The names of the packs.
    pub open spec fn pack_names(self) -> Seq<String> {
        Seq::new(self.packs.0@.len(), |i: int| self.packs.0@[i].name)
    }

    /// The players: the users, then the random players.
    pub fn players(&self) -> (r: Vec<PlayerKind>)
        ensures
            r@ == players_of(self.users@, self.bots),
    {
        let mut r: Vec<PlayerKind> = Vec::new();
        let mut i: usize = 0;
        while i < self.users.len()
            invariant
                i <= self.users.len(),
                r@.len() == i,
                forall|k: int| 0 <= k < i ==> r@[k] == PlayerKind::User(self.users@[k]),
            decreases self.users.len() - i,
        {
            r.push(PlayerKind::User(self.users[i]));
            i = i + 1;
        }
        let mut b: i32 = 0;
        while b < self.bots
            invariant
                0 <= b,
                b <= self.bots || self.bots < 0,
                self.bots <= 0 ==> b == 0,
                r@.len() == self.users@.len() + b,
                forall|k: int|
                    0 <= k < self.users@.len() ==> r@[k] == PlayerKind::User(self.users@[k]),
                forall|k: int|
                    self.users@.len() <= k < r@.len() ==> r@[k] == PlayerKind::Rando(
                        (k - self.users@.len()) as usize,
                    ),
            decreases self.bots - b,
        {
            r.push(PlayerKind::Rando(b as usize));
            b = b + 1;
        }
        proof {
            let want = players_of(self.users@, self.bots);
            assert(r@.len() == want.len());
            assert forall|k: int| 0 <= k < r@.len() implies r@[k] == want[k] by {
                if k < self.users@.len() {
                    assert(r@[k] == PlayerKind::User(self.users@[k]));
                } else {
                    assert(r@[k] == PlayerKind::Rando((k - self.users@.len()) as usize));
                }
            }
            assert(r@ =~= want);
        }
        r
    }

    fn names(&self) -> (r: Vec<String>)
        ensures
            r@ == self.pack_names(),
    {
        let mut r: Vec<String> = Vec::new();
        let mut i: usize = 0;
        while i < self.packs.0.len()
            invariant
                i <= self.packs.0.len(),
                r@.len() == i,
                forall|k: int| 0 <= k < i ==> r@[k] == self.packs.0@[k].name,
            decreases self.packs.0.len() - i,
        {
            r.push(self.packs.0[i].name.clone());
            i = i + 1;
        }
        assert(r@ =~= self.pack_names());
        r
    }

    /// Whether a setup, a panel and an answer are what follows from building
    /// the panel of this setup for an event: packs, numbers and users are as
    /// the widgets leave them, the panel has the five rows and the list of
    /// the players more, and nothing is asked of the game.
    pub open spec fn created(
        self,
        now: Setup,
        before: GameMessage,
        after: GameMessage,
        event: Event,
        r: Option<Action>,
    ) -> bool {
        &&& r is None
        &&& now.packs == self.packs
        &&& now.selected_packs@ == selected_after(
            self.selected_packs@,
            event.press,
            "Packs"@,
            self.packs.0@.len(),
        )
        &&& now.bots == stepped(self.bots, 0, i32::MAX, event.pressed(), "Bots"@)
        &&& now.cards == stepped(self.cards, 5, 25, event.pressed(), "Cards"@)
        &&& now.points == stepped(self.points, 1, i32::MAX, event.pressed(), "Points"@)
        &&& now.users@ == joined(self.users@, event.press)
        &&& after.fields@.len() == before.fields@.len() + 1
        &&& after.fields@.drop_last() == before.fields@
        &&& after.fields@.last().name@ == "Players"@
        &&& after.fields@.last().value@ == players_text(
            players_of(now.users@, now.bots),
        )
        &&& !after.fields@.last().inline
        &&& ({
            let had = before.components@;
            let rows = after.components@;
            let n = had.len() as int;
            &&& rows.len() == n + 5
            &&& rows.take(n) == had
            &&& is_select_row(
                rows[n],
                "Packs"@,
                self.pack_names(),
                now.selected_packs@,
            )
            &&& is_number_row(rows[n + 1], "Bots"@, now.bots, 0, i32::MAX)
            &&& is_number_row(rows[n + 2], "Cards"@, now.cards, 5, 25)
            &&& is_number_row(rows[n + 3], "Points"@, now.points, 1, i32::MAX)
            &&& rows[n + 4].components@.len() == 3
            &&& is_action(
                rows[n + 4].components@[0],
                ButtonStyle::Success,
                "join"@,
                "Join"@,
                false,
            )
            &&& is_action(
                rows[n + 4].components@[1],
                ButtonStyle::Danger,
                "leave"@,
                "Leave"@,
                false,
            )
            &&& is_action(
                rows[n + 4].components@[2],
                ButtonStyle::Primary,
                "Start"@,
                "Start"@,
                false,
            )
        })
    }

    /// Builds the panel of the setup, after taking what the event asks for.
    /// The panel has a menu of the packs, the three numbers, the buttons to
    /// join and to leave with the button to start beside them, and the list
    /// of the players. Building it asks nothing of the game.
    pub fn create(&mut self, msg: &mut GameMessage, event: &Event) -> (r: Option<Action>)
        requires
            old(self).packs.0@.len() <= 64,
        ensures
            old(self).created(*final(self), *old(msg), *final(msg), *event, r),
    {
        let ghost before = msg.components@;
        let names = self.names();
        msg.create_select(event, String::from_str("Packs"), names, &mut self.selected_packs);
        let ghost rows1 = msg.components@;
        msg.create_number(event, String::from_str("Bots"), &mut self.bots, 0, i32::MAX);
        let ghost rows2 = msg.components@;
        msg.create_number(event, String::from_str("Cards"), &mut self.cards, 5, 25);
        let ghost rows3 = msg.components@;
        msg.create_number(event, String::from_str("Points"), &mut self.points, 1, i32::MAX);
        let ghost rows4 = msg.components@;
        msg.create_join(event, &mut self.users);
        let ghost rows5 = msg.components@;
        proof {
            let n = before.len() as int;
            assert(rows2.drop_last() == rows1);
            assert(rows3.drop_last() == rows2);
            assert(rows4.drop_last() == rows3);
            assert(rows5.drop_last() == rows4);
            assert(rows1.drop_last() == before);
            assert(rows5[n] == rows1.last()) by {
                assert(rows4[n] == rows5.drop_last()[n]);
                assert(rows3[n] == rows4.drop_last()[n]);
                assert(rows2[n] == rows3.drop_last()[n]);
                assert(rows1[n] == rows2.drop_last()[n]);
            }
            assert(rows5[n + 1] == rows2.last()) by {
                assert(rows4[n + 1] == rows5.drop_last()[n + 1]);
                assert(rows3[n + 1] == rows4.drop_last()[n + 1]);
                assert(rows2[n + 1] == rows3.drop_last()[n + 1]);
            }
            assert(rows5[n + 2] == rows3.last()) by {
                assert(rows4[n + 2] == rows5.drop_last()[n + 2]);
                assert(rows3[n + 2] == rows4.drop_last()[n + 2]);
            }
            assert(rows5[n + 3] == rows4.last()) by {
                assert(rows4[n + 3] == rows5.drop_last()[n + 3]);
            }
            assert forall|k: int| 0 <= k < before.len() implies rows5[k] == before[k] by {
                assert(rows4[k] == rows5.drop_last()[k]);
                assert(rows3[k] == rows4.drop_last()[k]);
                assert(rows2[k] == rows3.drop_last()[k]);
                assert(rows1[k] == rows2.drop_last()[k]);
                assert(before[k] == rows1.drop_last()[k]);
            }
        }
        let players = self.players();
        let mut text = write_names(&players);
        if text.as_str().unicode_len() == 0 {
            text = String::from_str("*None.*");
        }
        let ghost fields = msg.fields@;
        msg.fields.push(Field::new("Players", text.as_str()));
        assert(msg.fields@.drop_last() =~= fields);
        msg.append_action(Action::Start.name(), ButtonStyle::Primary, String::from_str("Start"));
        proof {
            let rows = msg.components@;
            let n = before.len() as int;
            assert(row_is_full(rows5.last().components@) == false);
            assert(rows.drop_last() == rows5.drop_last());
            assert forall|k: int| 0 <= k < n + 4 implies rows[k] == rows5[k] by {
                assert(rows[k] == rows.drop_last()[k]);
                assert(rows5[k] == rows5.drop_last()[k]);
            }
            assert(rows.take(before.len() as int) =~= before);
        }
        None
    }
}

} // verus!
