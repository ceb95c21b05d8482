//! The game itself: from the setup through rounds of writing and reading.

use std::sync::Arc;
use vstd::prelude::*;
use vstd::string::*;
use crate::cah::cards::{fills, Card, Pack, Packs, Player, PlayerKind, White};
use crate::cah::deal::{cards_in, draw, kept, laid_once, lemma_kept, plain_in, take_in};
use crate::cah::setup::{players_of, Action, Panel, Setup};
use crate::game::panel::{ActionResponse, GameMessage};
use crate::game::select::contains_number;
use crate::message::{ActionRow, Field};
use crate::user::User;

verus! {

/// A game that is being played.
pub struct Ingame {
    pub packs: Packs,
    /// How many cards make a hand.
    pub cards: usize,
    /// How many points win the game.
    pub points: i32,
    pub players: Vec<Player>,
    /// The prompt of the round.
    pub prompt: Card<true>,
    /// The player who reads this round.
    pub czar: PlayerKind,
}

/// The game, in one of its three stages.
pub enum CAH {
    /// Players are joining and the rules are being set.
    Setup(Setup),
    /// The players lay down their answers.
    Write(Ingame),
    /// The czar reads the answers and picks the best.
    Read(Ingame),
}

/// The name of the game.
pub const NAME: &'static str = "Crappy Ableist Humor";

/// The colour of the game's panels.
pub const COLOR: u32 = 0x000000;

/// Whether a player holds cards of the packs only and laid down cards of the
/// hand only.
pub open spec fn sound_player(packs: Packs, p: Player) -> bool {
    &&& p.in_hand()
    &&& p.kind.numbered()
    &&& forall|k: int| 0 <= k < p.hand@.len() ==> (#[trigger] p.hand@[k]).fit(packs)
}

impl Ingame {
    /// Whether the game is in order: the prompt and all hands are of the
    /// packs, and the czar is one of the users who play.
    pub open spec fn sound(self) -> bool {
        &&& self.packs.playable()
        &&& self.prompt.fit(self.packs)
        &&& forall|i: int|
            0 <= i < self.players@.len() ==> sound_player(self.packs, #[trigger] self.players@[i])
        &&& self.czar is User
        &&& exists|i: int| 0 <= i < self.players@.len() && self.players@[i].kind.same(self.czar)
    }

    /// Whether every player holds a full hand.
    pub open spec fn dealt(self) -> bool {
        forall|i: int|
            0 <= i < self.players@.len() ==> (#[trigger] self.players@[i]).hand@.len() == self.cards
    }

    /// Whether every player has laid down what a new round starts with: a
    /// random player answers that fill the prompt, any other player nothing.
    pub open spec fn answered(self) -> bool {
        forall|i: int|
            0 <= i < self.players@.len() ==> if (#[trigger] self.players@[i]).kind is Rando {
                fills(self.prompt.blanks(self.packs), self.packs, self.players@[i].laid())
            } else {
                self.players@[i].selected@.len() == 0
            }
    }

    /// Whether a player has nothing left to do this round: the czar lays
    /// down nothing, and the others are done once their answers fill the prompt.
    pub open spec fn done_with(self, p: Player) -> bool {
        self.czar.same(p.kind) || fills(self.prompt.blanks(self.packs), self.packs, p.laid())
    }

    /// Whether every player has nothing left to do this round.
    pub open spec fn all_done(self) -> bool {
        forall|i: int| 0 <= i < self.players@.len() ==> self.done_with(#[trigger] self.players@[i])
    }

    /// Tells whether every player has nothing left to do this round.
    pub fn everyone_done(&self) -> (r: bool)
        requires
            self.sound(),
        ensures
            r == self.all_done(),
    {
        let mut i: usize = 0;
        while i < self.players.len()
            invariant
                self.sound(),
                i <= self.players.len(),
                forall|k: int| 0 <= k < i ==> self.done_with(#[trigger] self.players@[k]),
            decreases self.players.len() - i,
        {
            let p = &self.players[i];
            assert(sound_player(self.packs, *p));
            if !self.czar.is(&p.kind) {
                let laid = p.selected();
                proof {
                    assert forall|k: int| 0 <= k < laid@.len() implies (#[trigger] laid@[k] matches Some(
                        c,
                    ) ==> c.held_by(self.packs)) by {
                        if p.selected@[k] is Some {
                            assert(p.hand@[p.selected@[k]->0 as int].held_by(self.packs));
                        }
                    }
                }
                if !self.prompt.is_filled(&self.packs, &laid) {
                    return false;
                }
            }
            i = i + 1;
        }
        true
    }

    /// The users among the players, in order.
    pub open spec fn users(self) -> Seq<PlayerKind> {
        users_among(self.players@)
    }

    /// The user who reads next: the one after the czar among the users, and
    /// after the last of them the first.
    pub open spec fn next_czar(self) -> PlayerKind {
        let users = self.users();
        users[(place_of(users, self.czar) + 1) % (users.len() as int)]
    }
}

/// The users among some players, in order.
pub open spec fn users_among(players: Seq<Player>) -> Seq<PlayerKind>
    decreases players.len(),
{
    if players.len() == 0 {
        Seq::empty()
    } else if players.last().kind is User {
        users_among(players.drop_last()).push(players.last().kind)
    } else {
        users_among(players.drop_last())
    }
}

/// Where a player stands first among some; their number where nowhere.
pub open spec fn place_of(players: Seq<PlayerKind>, who: PlayerKind) -> int
    decreases players.len(),
{
    if players.len() == 0 || players[0].same(who) {
        0
    } else {
        1 + place_of(players.drop_first(), who)
    }
}

/// Lists the users among some players.
pub fn list_users(players: &Vec<Player>) -> (r: Vec<PlayerKind>)
    ensures
        r@ == users_among(players@),
{
    let mut r: Vec<PlayerKind> = Vec::new();
    let mut i: usize = 0;
    while i < players.len()
        invariant
            i <= players.len(),
            r@ == users_among(players@.take(i as int)),
        decreases players.len() - i,
    {
        proof {
            assert(players@.take(i + 1).drop_last() =~= players@.take(i as int));
            assert(players@.take(i + 1).last() == players@[i as int]);
        }
        if players[i].kind.is_user() {
            r.push(players[i].kind);
        }
        i = i + 1;
    }
    assert(players@.take(players.len() as int) =~= players@);
    r
}

/// Finds where a player stands first among some.
pub fn find_player(players: &Vec<PlayerKind>, who: &PlayerKind) -> (r: usize)
    ensures
        r == place_of(players@, *who),
        r <= players@.len(),
{
    let mut i: usize = 0;
    assert(players@.skip(0) =~= players@);
    while i < players.len() && !players[i].is(who)
        invariant
            i <= players.len(),
            place_of(players@, *who) == i + place_of(players@.skip(i as int), *who),
        decreases players.len() - i,
    {
        assert(players@.skip(i as int).drop_first() =~= players@.skip(i + 1));
        i = i + 1;
    }
    i
}

/// The packs at the selected places, in the order of the packs.
pub open spec fn picked_upto(packs: Seq<Arc<Pack>>, selected: Seq<usize>, n: int) -> Seq<Arc<Pack>>
    decreases n,
{
    if n <= 0 {
        Seq::empty()
    } else if selected.contains((n - 1) as usize) {
        picked_upto(packs, selected, n - 1).push(packs[n - 1])
    } else {
        picked_upto(packs, selected, n - 1)
    }
}

/// Whether a pack can be played with: each of its cards can be played, and
/// they are few enough to be numbered.
pub open spec fn good_pack(pack: Pack) -> bool {
    &&& pack.data.black@.len() <= u32::MAX
    &&& pack.data.white@.len() <= u32::MAX
    &&& forall|c: int| 0 <= c < pack.data.black@.len() ==> (#[trigger] pack.data.black@[c]).playable()
    &&& forall|c: int| 0 <= c < pack.data.white@.len() ==> (#[trigger] pack.data.white@[c]).playable()
}

/// Packs picked from good packs are good packs.
pub proof fn lemma_picked(packs: Seq<Arc<Pack>>, selected: Seq<usize>, n: int)
    requires
        0 <= n <= packs.len(),
        forall|j: int| 0 <= j < packs.len() ==> good_pack(*#[trigger] packs[j]),
    ensures
        picked_upto(packs, selected, n).len() <= n,
        forall|k: int|
            0 <= k < picked_upto(packs, selected, n).len() ==> good_pack(
                *#[trigger] picked_upto(packs, selected, n)[k],
            ),
    decreases n,
{
    if n > 0 {
        lemma_picked(packs, selected, n - 1);
        let before = picked_upto(packs, selected, n - 1);
        let now = picked_upto(packs, selected, n);
        assert forall|k: int| 0 <= k < now.len() implies good_pack(*#[trigger] now[k]) by {
            if k < before.len() {
                assert(now[k] == before[k]);
            } else {
                assert(now[k] == packs[n - 1]);
            }
        }
    }
}

/// Packs picked from packs that can be played with can be played with.
pub proof fn lemma_picked_playable(packs: Packs, selected: Seq<usize>, picked: Packs)
    requires
        packs.playable(),
        picked.0@ == picked_upto(packs.0@, selected, packs.0@.len() as int),
    ensures
        picked.playable(),
{
    assert forall|j: int| 0 <= j < packs.0@.len() implies good_pack(*#[trigger] packs.0@[j]) by {
        assert(packs.cards(true, j) == packs.0@[j].data.black@);
        assert(packs.cards(false, j) == packs.0@[j].data.white@);
        assert forall|c: int| 0 <= c < packs.0@[j].data.black@.len() implies (
        #[trigger] packs.0@[j].data.black@[c]).playable() by {
            assert(packs.cards(true, j)[c].playable());
        }
        assert forall|c: int| 0 <= c < packs.0@[j].data.white@.len() implies (
        #[trigger] packs.0@[j].data.white@[c]).playable() by {
            assert(packs.cards(false, j)[c].playable());
        }
    }
    lemma_picked(packs.0@, selected, packs.0@.len() as int);
    assert forall|black: bool, pack: int| 0 <= pack < picked.0@.len() implies (#[trigger] picked.cards(
        black,
        pack,
    )).len() <= u32::MAX by {
        assert(good_pack(*picked.0@[pack]));
    }
    assert forall|black: bool, pack: int, card: int|
        0 <= pack < picked.0@.len() && 0 <= card < picked.cards(black, pack).len() implies (
    #[trigger] picked.cards(black, pack)[card]).playable() by {
        assert(good_pack(*picked.0@[pack]));
    }
}

/// Picks the packs at the selected places.
pub fn pick_packs(packs: &Packs, selected: &Vec<usize>) -> (r: Packs)
    ensures
        r.0@ == picked_upto(packs.0@, selected@, packs.0@.len() as int),
{
    let mut r: Vec<Arc<Pack>> = Vec::new();
    let mut i: usize = 0;
    while i < packs.0.len()
        invariant
            i <= packs.0.len(),
            r@ == picked_upto(packs.0@, selected@, i as int),
        decreases packs.0.len() - i,
    {
        if contains_number(selected, i) {
            r.push(Arc::clone(&packs.0[i]));
        }
        i = i + 1;
    }
    Packs(r)
}

/// The first user among some players.
pub fn first_user(players: &Vec<PlayerKind>) -> (r: Option<PlayerKind>)
    ensures
        match r {
            Some(p) => exists|i: int|
                0 <= i < players@.len() && players@[i] == p && p is User && forall|j: int|
                    0 <= j < i ==> !(players@[j] is User),
            None => forall|i: int| 0 <= i < players@.len() ==> !(players@[i] is User),
        },
{
    let mut i: usize = 0;
    while i < players.len()
        invariant
            i <= players.len(),
            forall|j: int| 0 <= j < i ==> !(players@[j] is User),
        decreases players.len() - i,
    {
        if players[i].is_user() {
            return Some(players[i]);
        }
        i = i + 1;
    }
    None
}

/// Whether a message is the one that says why an action could not be
/// carried out: one field named `Error` that holds the reason and takes a
/// line of its own, and no rows.
pub open spec fn is_error(msg: GameMessage, text: Seq<char>) -> bool {
    &&& msg.fields@.len() == 1
    &&& msg.fields@[0].name@ == "Error"@
    &&& msg.fields@[0].value@ == text
    &&& !msg.fields@[0].inline
    &&& msg.components@.len() == 0
}

/// The answer that an action could not be carried out.
pub fn error(text: &str) -> (r: ActionResponse<Panel>)
    ensures
        r matches ActionResponse::Error(msg) && is_error(msg, text@),
{
    let mut fields: Vec<Field> = Vec::new();
    fields.push(Field::new("Error", text));
    let components: Vec<ActionRow> = Vec::new();
    ActionResponse::Error(GameMessage::new(fields, components))
}

/// Why a game cannot start.
pub const TOO_FEW: &'static str = "not enough players";

pub const NO_USER: &'static str =
    "I know you want to witness the AI uprising, but you can't play a game with only Rando Cardrissian";

pub const NO_PROMPTS: &'static str = "selected packs do not have any black cards";

pub const NO_ANSWERS: &'static str = "selected packs do not have enough white cards to start";

/// Why a round cannot follow.
pub const NO_NEXT_PROMPT: &'static str = "the packs do not have any black cards";

pub const NO_NEXT_ANSWERS: &'static str = "the packs do not have enough white cards to go on";

/// Why a game cannot start, or a round cannot follow.
#[derive(Clone, Copy, Debug, PartialEq, Eq, Structural)]
pub enum Refusal {
    /// Fewer than two players.
    TooFew,
    /// No user among the players.
    NoUser,
    /// No prompt in the selected packs.
    NoPrompts,
    /// A hand could not be dealt at the start.
    NoAnswers,
    /// No prompt in the packs for the next round.
    NoNextPrompt,
    /// A hand could not be dealt for the next round.
    NoNextAnswers,
}

impl Refusal {
    /// What the players are told.
    pub open spec fn text(self) -> Seq<char> {
        match self {
            Refusal::TooFew => TOO_FEW@,
            Refusal::NoUser => NO_USER@,
            Refusal::NoPrompts => NO_PROMPTS@,
            Refusal::NoAnswers => NO_ANSWERS@,
            Refusal::NoNextPrompt => NO_NEXT_PROMPT@,
            Refusal::NoNextAnswers => NO_NEXT_ANSWERS@,
        }
    }

    pub fn message(self) -> (r: &'static str)
        ensures
            r@ == self.text(),
    {
        match self {
            Refusal::TooFew => TOO_FEW,
            Refusal::NoUser => NO_USER,
            Refusal::NoPrompts => NO_PROMPTS,
            Refusal::NoAnswers => NO_ANSWERS,
            Refusal::NoNextPrompt => NO_NEXT_PROMPT,
            Refusal::NoNextAnswers => NO_NEXT_ANSWERS,
        }
    }
}

/// Whether some players are these kinds of player, in order.
pub open spec fn are_kinds(players: Seq<Player>, kinds: Seq<PlayerKind>) -> bool {
    &&& players.len() == kinds.len()
    &&& forall|i: int| 0 <= i < players.len() ==> (#[trigger] players[i]).kind == kinds[i]
}

impl Setup {
    /// A setup without packs and without players.
    pub fn empty() -> (r: Self)
        ensures
            r.packs.0@.len() == 0,
            r.users@.len() == 0,
    {
        Setup {
            packs: Packs(Vec::new()),
            selected_packs: Vec::new(),
            bots: 0,
            cards: 0,
            points: 0,
            users: Vec::new(),
        }
    }

    /// Whether a game can be started from this setup, as far as that does
    /// not depend on the draw: the packs can be played with and a hand has no
    /// negative number of cards.
    pub open spec fn sound(self) -> bool {
        self.packs.playable() && self.cards >= 0
    }

    /// The packs that are selected, in the order of the packs.
    pub open spec fn picked(self) -> Seq<Arc<Pack>> {
        picked_upto(self.packs.0@, self.selected_packs@, self.packs.0@.len() as int)
    }

    /// How many prompts the selected packs hold.
    pub open spec fn prompts(self) -> nat {
        cards_in(self.picked(), true, self.picked().len() as int)
    }

    /// How many answers the selected packs hold.
    pub open spec fn answers(self) -> nat {
        cards_in(self.picked(), false, self.picked().len() as int)
    }

    /// Why the game cannot start, where that does not depend on the draw:
    /// for want of players, of a user, of a prompt, or of any answer to deal.
    pub open spec fn refusal(self) -> Option<Refusal> {
        if players_of(self.users@, self.bots).len() < 2 {
            Some(Refusal::TooFew)
        } else if self.users@.len() == 0 {
            Some(Refusal::NoUser)
        } else if self.prompts() == 0 {
            Some(Refusal::NoPrompts)
        } else if self.cards > 0 && self.answers() == 0 {
            Some(Refusal::NoAnswers)
        } else {
            None
        }
    }

    /// Whether every hand is dealt whatever is drawn. With users alone that
    /// is so. A random player has to fill the prompt from its hand, which it
    /// surely does where no answer has a blank of its own and no prompt takes
    /// more answers than a hand holds.
    pub open spec fn deals_surely(self) -> bool {
        self.bots > 0 ==> plain_in(self.picked()) && take_in(self.picked(), self.cards as nat)
    }

    /// Starts the game: the selected packs are taken, the first user becomes
    /// czar, a prompt is drawn and every player is dealt a hand.
    ///
    /// The game does not start with fewer than two players, without a user,
    /// without a prompt in the selected packs, or without an answer to deal;
    /// the first of these that holds is the refusal. Else it starts, unless
    /// a random player cannot fill the prompt from its hand, which does not
    /// happen where [`Setup::deals_surely`] holds.
    pub fn start(&self) -> (r: Result<Ingame, Refusal>)
        requires
            self.sound(),
        ensures
            match self.refusal() {
                Some(why) => r matches Err(e) && e == why,
                None => r is Ok || (r matches Err(e) && e == Refusal::NoAnswers
                    && !self.deals_surely()),
            },
            match r {
                Ok(game) => {
                    &&& game.sound()
                    &&& game.dealt()
                    &&& game.answered()
                    &&& game.packs.0@ == picked_upto(
                        self.packs.0@,
                        self.selected_packs@,
                        self.packs.0@.len() as int,
                    )
                    &&& game.cards == self.cards as usize
                    &&& game.points == self.points
                    &&& are_kinds(game.players@, players_of(self.users@, self.bots))
                    &&& game.players@.len() >= 2
                    &&& self.users@.len() > 0 && game.czar == PlayerKind::User(self.users@[0])
                    &&& game.packs.total(true) > 0
                    &&& forall|i: int|
                        0 <= i < game.players@.len() ==> (#[trigger] game.players@[i]).hand@.len()
                            == game.cards && game.players@[i].points == 0
                },
                Err(_) => true,
            },
    {
        let kinds = self.players();
        let mut packs = pick_packs(&self.packs, &self.selected_packs);
        proof {
            lemma_picked_playable(self.packs, self.selected_packs@, packs);
            packs.lemma_total_in(true, packs.0@.len() as int);
            packs.lemma_total_in(false, packs.0@.len() as int);
        }
        if kinds.len() < 2 {
            return Err(Refusal::TooFew);
        }
        let czar = match first_user(&kinds) {
            Some(p) => p,
            None => {
                proof {
                    if self.users@.len() > 0 {
                        assert(kinds@[0] is User);
                    }
                }
                return Err(Refusal::NoUser);
            },
        };
        proof {
            if self.users@.len() == 0 {
                let i = choose|i: int| 0 <= i < kinds@.len() && kinds@[i] == czar && czar is User;
                assert(kinds@[i] is Rando);
            } else {
                assert(kinds@[0] is User);
            }
        }
        proof {
            let i = choose|i: int|
                0 <= i < kinds@.len() && kinds@[i] == czar && czar is User && forall|j: int|
                    0 <= j < i ==> !(kinds@[j] is User);
            assert(kinds@[0] is User);
            assert(i == 0);
        }
        let mut players: Vec<Player> = Vec::new();
        let mut i: usize = 0;
        while i < kinds.len()
            invariant
                i <= kinds.len(),
                players@.len() == i,
                forall|k: int|
                    0 <= k < i ==> (#[trigger] players@[k]).kind == kinds@[k] && players@[k].points
                        == 0 && players@[k].hand@.len() == 0 && players@[k].selected@.len() == 0,
            decreases kinds.len() - i,
        {
            players.push(Player::new(kinds[i]));
            i = i + 1;
        }
        let prompt = match packs.draw_black(&players) {
            Some(c) => c,
            None => {
                return Err(Refusal::NoPrompts);
            },
        };
        let max = self.cards as usize;
        let ghost fresh = players@;
        let mut num: usize = 0;
        while num < players.len()
            invariant
                num <= players@.len() == kinds@.len(),
                kinds@ == players_of(self.users@, self.bots),
                kinds@.len() >= 2,
                self.users@.len() > 0,
                czar == PlayerKind::User(self.users@[0]),
                packs.total(true) > 0,
                packs.total(true) == self.prompts(),
                packs.total(false) == self.answers(),
                max == self.cards,
                num > 0 ==> max == 0 || packs.total(false) > 0,
                packs.playable(),
                prompt.held_by(packs),
                packs.0@ == picked_upto(
                    self.packs.0@,
                    self.selected_packs@,
                    self.packs.0@.len() as int,
                ),
                forall|k: int| 0 <= k < players@.len() ==> (#[trigger] players@[k]).kind == kinds@[k],
                forall|k: int| 0 <= k < players@.len() ==> (#[trigger] players@[k]).points == 0,
                forall|k: int|
                    0 <= k < num ==> sound_player(packs, #[trigger] players@[k])
                        && players@[k].hand@.len() == max,
                forall|k: int|
                    0 <= k < num ==> if (#[trigger] players@[k]).kind is Rando {
                        fills(prompt.blanks(packs), packs, players@[k].laid())
                    } else {
                        players@[k].selected@.len() == 0
                    },
                forall|k: int|
                    num <= k < players@.len() ==> (#[trigger] players@[k]).hand@.len() == 0
                        && players@[k].selected@.len() == 0,
            decreases players.len() - num,
        {
            let ghost before = players@;
            proof {
                assert(before[num as int].hand@.len() == 0);
                assert(kept(before[num as int].hand@, before[num as int].selected@)
                    =~= Seq::<White>::empty());
                assert(kinds@[0] is User);
                if self.deals_surely() && before[num as int].kind is Rando {
                    assert(kinds@[num as int] is Rando);
                    assert(self.bots > 0);
                    assert(packs.cards(true, prompt.pack as int)[prompt.card as int].black_blanks()
                        <= max);
                }
            }
            if !draw(&mut players, num, &mut packs, max, prompt) {
                return Err(Refusal::NoAnswers);
            }
            proof {
                let p = players@[num as int];
                assert(sound_player(packs, p)) by {
                    if p.kind is Rando {
                        assert(laid_once(p.selected@, p.hand@.len()));
                    }
                }
                assert forall|k: int| 0 <= k < players@.len() implies (#[trigger] players@[k]).kind
                    == kinds@[k] && players@[k].points == 0 by {
                    if k != num {
                        assert(players@[k] == before[k]);
                    }
                }
                assert forall|k: int| 0 <= k < num implies sound_player(packs, #[trigger] players@[k])
                    && players@[k].hand@.len() == max by {
                    assert(players@[k] == before[k]);
                }
                assert forall|k: int| 0 <= k < num + 1 implies if (#[trigger] players@[k]).kind
                    is Rando {
                    fills(prompt.blanks(packs), packs, players@[k].laid())
                } else {
                    players@[k].selected@.len() == 0
                } by {
                    if k != num {
                        assert(players@[k] == before[k]);
                    }
                }
                assert forall|k: int| num < k < players@.len() implies (#[trigger] players@[k]).hand@.len()
                    == 0 && players@[k].selected@.len() == 0 by {
                    assert(players@[k] == before[k]);
                }
            }
            num = num + 1;
        }
        let game = Ingame { packs, cards: max, points: self.points, players, prompt, czar };
        proof {
            assert(game.players@[0].kind == kinds@[0]);
            assert(game.players@[0].kind.same(czar));
            assert(are_kinds(game.players@, kinds@));
        }
        Ok(game)
    }
}

/// The users among some players are users who play, and every user who
/// plays is among them.
pub proof fn lemma_users_among(players: Seq<Player>)
    ensures
        forall|k: int|
            #![trigger users_among(players)[k]]
            0 <= k < users_among(players).len() ==> users_among(players)[k] is User && exists|
                i: int,
            |
                #![trigger players[i]]
                0 <= i < players.len() && players[i].kind == users_among(players)[k],
        forall|i: int|
            #![trigger players[i]]
            0 <= i < players.len() && players[i].kind is User ==> exists|k: int|
                #![trigger users_among(players)[k]]
                0 <= k < users_among(players).len() && users_among(players)[k] == players[i].kind,
    decreases players.len(),
{
    if players.len() > 0 {
        let before = players.drop_last();
        lemma_users_among(before);
        let users = users_among(players);
        let fewer = users_among(before);
        assert forall|k: int| #![trigger users[k]] 0 <= k < users.len() implies users[k] is User
            && exists|i: int|
            #![trigger players[i]]
            0 <= i < players.len() && players[i].kind == users[k] by {
            if k < fewer.len() {
                assert(users[k] == fewer[k]);
                let i = choose|i: int|
                    #![trigger before[i]]
                    0 <= i < before.len() && before[i].kind == fewer[k];
                assert(players[i].kind == users[k]);
            } else {
                assert(players[players.len() - 1].kind == users[k]);
            }
        }
        assert forall|i: int|
            #![trigger players[i]]
            0 <= i < players.len() && players[i].kind is User implies exists|k: int|
            #![trigger users[k]]
            0 <= k < users.len() && users[k] == players[i].kind by {
            if i < before.len() {
                assert(before[i].kind is User);
                let k = choose|k: int|
                    #![trigger fewer[k]]
                    0 <= k < fewer.len() && fewer[k] == before[i].kind;
                assert(users[k] == players[i].kind);
            } else {
                assert(users[users.len() - 1] == players[i].kind);
            }
        }
    }
}

/// A player who is among some stands at a place among them.
pub proof fn lemma_place_of(players: Seq<PlayerKind>, who: PlayerKind, at: int)
    requires
        0 <= at < players.len(),
        players[at].same(who),
    ensures
        0 <= place_of(players, who) <= at,
        players[place_of(players, who)].same(who),
    decreases players.len(),
{
    if !players[0].same(who) {
        lemma_place_of(players.drop_first(), who, at - 1);
    }
}

impl Ingame {
    /// In a game that is in order there are users, the czar is one of them,
    /// and so is the user who reads next.
    pub proof fn lemma_next_czar(self)
        requires
            self.sound(),
        ensures
            self.users().len() > 0,
            0 <= place_of(self.users(), self.czar) < self.users().len(),
            self.next_czar() is User,
            exists|i: int|
                #![trigger self.players@[i]]
                0 <= i < self.players@.len() && self.players@[i].kind.same(self.next_czar()),
    {
        lemma_users_among(self.players@);
        let users = self.users();
        let i = choose|i: int| 0 <= i < self.players@.len() && self.players@[i].kind.same(self.czar);
        assert(self.players@[i].kind is User);
        let k = choose|k: int|
            #![trigger users[k]]
            0 <= k < users.len() && users[k] == self.players@[i].kind;
        lemma_place_of(users, self.czar, k);
        let next = (place_of(users, self.czar) + 1) % (users.len() as int);
        assert(0 <= next < users.len());
        assert(users[next] is User);
        let j = choose|j: int|
            #![trigger self.players@[j]]
            0 <= j < self.players@.len() && self.players@[j].kind == users[next];
        assert(self.players@[j].kind.same(self.next_czar()));
    }

    /// Whether a random player plays.
    pub open spec fn has_rando(self) -> bool {
        exists|i: int| 0 <= i < self.players@.len() && (#[trigger] self.players@[i]).kind is Rando
    }

    /// Whether the next round follows whatever is drawn: the packs hold a
    /// prompt and an answer, and, where a random player plays, no answer has
    /// a blank of its own and no prompt takes more answers than a hand holds.
    pub open spec fn goes_on_surely(self) -> bool {
        &&& self.packs.total(true) > 0
        &&& self.packs.total(false) > 0
        &&& self.has_rando() ==> self.packs.plain_answers() && self.packs.prompts_take(
            self.cards as nat,
        )
    }

    /// Moves on to the next round: a new prompt is drawn, every player is
    /// dealt to, and the next user becomes czar.
    ///
    /// The round does not follow without a prompt in the packs, and the game
    /// then stays as it is. Nor does it follow when a hand cannot be dealt,
    /// which does not happen where [`Ingame::goes_on_surely`] holds; the game
    /// is then left in order, with what was dealt.
    pub fn next_round(&mut self) -> (r: Result<(), Refusal>)
        requires
            old(self).sound(),
        ensures
            old(self).packs.total(true) == 0 <==> (r matches Err(e) && e == Refusal::NoNextPrompt),
            old(self).packs.total(true) == 0 ==> *final(self) == *old(self),
            old(self).goes_on_surely() ==> r is Ok,
            r matches Err(e) ==> e == Refusal::NoNextPrompt || e == Refusal::NoNextAnswers,
            final(self).sound(),
            final(self).packs == old(self).packs,
            final(self).cards == old(self).cards,
            final(self).points == old(self).points,
            final(self).players@.len() == old(self).players@.len(),
            forall|i: int|
                0 <= i < old(self).players@.len() ==> (#[trigger] final(self).players@[i]).kind
                    == old(self).players@[i].kind && final(self).players@[i].points == old(
                    self,
                ).players@[i].points,
            match r {
                Ok(_) => final(self).czar == old(self).next_czar() && (old(self).dealt()
                    ==> final(self).dealt()) && final(self).answered(),
                Err(_) => final(self).czar == old(self).czar,
            },
    {
        proof {
            self.lemma_next_czar();
        }
        let ghost start = *self;
        let prompt = match self.packs.draw_black(&self.players) {
            Some(c) => c,
            None => {
                return Err(Refusal::NoNextPrompt);
            },
        };
        self.prompt = prompt;
        let mut num: usize = 0;
        while num < self.players.len()
            invariant
                num <= self.players@.len() == start.players@.len(),
                start == *old(self),
                start.packs.total(true) > 0,
                self.sound(),
                self.packs == start.packs,
                self.cards == start.cards,
                self.points == start.points,
                self.czar == start.czar,
                forall|i: int|
                    0 <= i < start.players@.len() ==> (#[trigger] self.players@[i]).kind
                        == start.players@[i].kind && self.players@[i].points
                        == start.players@[i].points,
                start.dealt() ==> forall|i: int|
                    0 <= i < self.players@.len() ==> (#[trigger] self.players@[i]).hand@.len()
                        == self.cards,
                self.prompt == prompt,
                forall|i: int|
                    0 <= i < num ==> if (#[trigger] self.players@[i]).kind is Rando {
                        fills(prompt.blanks(self.packs), self.packs, self.players@[i].laid())
                    } else {
                        self.players@[i].selected@.len() == 0
                    },
            decreases self.players.len() - num,
        {
            let ghost before = self.players@;
            assert(sound_player(self.packs, before[num as int]));
            proof {
                if start.goes_on_surely() && before[num as int].kind is Rando {
                    assert(start.players@[num as int].kind is Rando);
                    assert(start.has_rando());
                    assert(self.packs.cards(true, self.prompt.pack as int)[self.prompt.card as int].black_blanks()
                        <= self.cards);
                }
            }
            let dealt = draw(&mut self.players, num, &mut self.packs, self.cards, self.prompt);
            proof {
                let p = self.players@[num as int];
                assert(sound_player(self.packs, p)) by {
                    if p.kind is Rando {
                        assert(laid_once(p.selected@, p.hand@.len()));
                    }
                }
                assert forall|i: int| 0 <= i < self.players@.len() implies sound_player(
                    self.packs,
                    #[trigger] self.players@[i],
                ) by {
                    if i != num {
                        assert(self.players@[i] == before[i]);
                        assert(sound_player(self.packs, before[i]));
                    }
                }
                assert forall|i: int| 0 <= i < start.players@.len() implies (
                #[trigger] self.players@[i]).kind == start.players@[i].kind
                    && self.players@[i].points == start.players@[i].points by {
                    if i != num {
                        assert(self.players@[i] == before[i]);
                    }
                }
                let w = choose|w: int| 0 <= w < before.len() && before[w].kind.same(self.czar);
                assert(self.players@[w].kind.same(self.czar));
            }
            if !dealt {
                return Err(Refusal::NoNextAnswers);
            }
            proof {
                assert forall|i: int| 0 <= i < num + 1 implies if (#[trigger] self.players@[i]).kind
                    is Rando {
                    fills(prompt.blanks(self.packs), self.packs, self.players@[i].laid())
                } else {
                    self.players@[i].selected@.len() == 0
                } by {
                    if i != num {
                        assert(self.players@[i] == before[i]);
                    }
                }
                if start.dealt() {
                    let was = before[num as int];
                    lemma_kept(was.hand@, was.selected@, was.hand@.len() as int);
                    assert forall|i: int| 0 <= i < self.players@.len() implies (
                    #[trigger] self.players@[i]).hand@.len() == self.cards by {
                        if i != num {
                            assert(self.players@[i] == before[i]);
                        }
                    }
                }
            }
            num = num + 1;
        }
        let users = list_users(&self.players);
        proof {
            assert(users_among(self.players@) =~= users_among(start.players@)) by {
                lemma_same_users(self.players@, start.players@);
            }
        }
        let at = find_player(&users, &self.czar);
        let next = if at + 1 >= users.len() {
            0
        } else {
            at + 1
        };
        assert(next == (at + 1) % (users.len() as int)) by {
            if at + 1 < users.len() {
                assert((at + 1) % (users.len() as int) == at + 1) by (nonlinear_arith)
                    requires
                        0 <= at + 1 < users.len(),
                ;
            } else {
                assert(at + 1 == users.len());
                assert((at + 1) % (users.len() as int) == 0) by (nonlinear_arith)
                    requires
                        at + 1 == users.len(),
                        users.len() > 0,
                ;
            }
        }
        let ghost old_players = self.players@;
        self.czar = users[next];
        proof {
            let j = choose|j: int|
                #![trigger start.players@[j]]
                0 <= j < start.players@.len() && start.players@[j].kind.same(start.next_czar());
            assert(self.players@[j].kind == start.players@[j].kind);
        }
        Ok(())
    }
}

/// Players of the same kinds have the same users among them.
pub proof fn lemma_same_users(a: Seq<Player>, b: Seq<Player>)
    requires
        a.len() == b.len(),
        forall|i: int| 0 <= i < a.len() ==> (#[trigger] a[i]).kind == b[i].kind,
    ensures
        users_among(a) == users_among(b),
    decreases a.len(),
{
    if a.len() > 0 {
        assert forall|i: int| 0 <= i < a.drop_last().len() implies (#[trigger] a.drop_last()[i]).kind
            == b.drop_last()[i].kind by {
            assert(a[i].kind == b[i].kind);
        }
        lemma_same_users(a.drop_last(), b.drop_last());
        assert(a.last().kind == a[a.len() - 1].kind);
    }
}

impl CAH {
    /// Whether the game is in order.
    pub open spec fn sound(self) -> bool {
        match self {
            CAH::Setup(s) => s.sound(),
            CAH::Write(g) => g.sound(),
            CAH::Read(g) => g.sound(),
        }
    }

    /// A game in its setup, with these packs to pick from and the user who
    /// called for it as its first player. The first pack is selected; a hand
    /// has ten cards and eight points win.
    pub fn new(packs: Packs, user: User) -> (r: Self)
        ensures
            r matches CAH::Setup(s) && s.packs == packs && s.selected_packs@ == seq![0usize]
                && s.bots == 0 && s.cards == 10 && s.points == 8 && s.users@ == seq![user.id],
    {
        let mut selected_packs: Vec<usize> = Vec::new();
        selected_packs.push(0);
        let mut users = Vec::new();
        users.push(user.id);
        CAH::Setup(Setup { packs, selected_packs, bots: 0, cards: 10, points: 8, users })
    }

    /// Whether a game and an answer are what follows from this game by an
    /// action.
    ///
    /// `Done` ends the game at any stage. In the setup only `Start` counts:
    /// the game starts with the writing, or with the reading if but one user
    /// plays, unless it is refused as [`Setup::start`] says; it is never
    /// refused where [`Setup::refusal`] gives none and [`Setup::deals_surely`]
    /// holds. While writing, `ShowHand` shows a player the hand, and
    /// `ChangeHand` moves on to the reading once every player is done. While
    /// reading only `Continue` counts: the next round starts, with the
    /// writing unless the czar stays the same.
    pub open spec fn follows(self, action: Action, after: CAH, answer: ActionResponse<Panel>) -> bool {
        match (self, action) {
            (_, Action::Done) => after == self && answer is Exit,
            (CAH::Setup(s), Action::Start) => match answer {
                ActionResponse::NextMain => {
                    &&& s.refusal() is None
                    &&& !(after is Setup)
                    &&& {
                        let g = match after {
                            CAH::Write(g) => g,
                            CAH::Read(g) => g,
                            CAH::Setup(_) => arbitrary(),
                        };
                        &&& g.cards == s.cards as usize
                        &&& g.points == s.points
                        &&& g.dealt()
                        &&& g.answered()
                        &&& forall|i: int|
                            0 <= i < g.players@.len() ==> (#[trigger] g.players@[i]).points == 0
                        &&& are_kinds(g.players@, players_of(s.users@, s.bots))
                        &&& g.players@.len() >= 2
                        &&& s.users@.len() > 0 && g.czar == PlayerKind::User(s.users@[0])
                        &&& g.packs.0@ == picked_upto(
                            s.packs.0@,
                            s.selected_packs@,
                            s.packs.0@.len() as int,
                        )
                        &&& after is Read <==> g.users().len() == 1
                    }
                },
                ActionResponse::Error(msg) => after == self && (match s.refusal() {
                    Some(why) => is_error(msg, why.text()),
                    None => is_error(msg, Refusal::NoAnswers.text()) && !s.deals_surely(),
                }),
                _ => false,
            },
            (CAH::Setup(_), _) => after == self && answer is Nothing,
            (CAH::Write(g), Action::ShowHand) => after == self && answer == ActionResponse::<
                Panel,
            >::Reply(Panel::Hand),
            (CAH::Write(g), Action::ChangeHand) => if g.all_done() {
                after == CAH::Read(g) && answer is NextMain
            } else {
                after == self && answer is EditMain
            },
            (CAH::Write(_), _) => after == self && answer is Nothing,
            (CAH::Read(g), Action::Continue) => {
                let h = match after {
                    CAH::Write(h) => h,
                    CAH::Read(h) => h,
                    CAH::Setup(_) => arbitrary(),
                };
                &&& !(after is Setup)
                &&& h.packs == g.packs && h.cards == g.cards && h.points == g.points
                &&& h.players@.len() == g.players@.len()
                &&& forall|i: int|
                    0 <= i < g.players@.len() ==> h.players@[i].kind == (
                    #[trigger] g.players@[i]).kind && h.players@[i].points == g.players@[i].points
                &&& match answer {
                    ActionResponse::NextMain => g.packs.total(true) > 0 && h.czar == g.next_czar()
                        && (after is Write <==> !h.czar.same(g.czar)) && (g.dealt() ==> h.dealt())
                        && h.answered(),
                    ActionResponse::Error(msg) => after is Read && h.czar == g.czar && (
                    if g.packs.total(true) == 0 {
                        h == g && is_error(msg, Refusal::NoNextPrompt.text())
                    } else {
                        is_error(msg, Refusal::NoNextAnswers.text()) && !g.goes_on_surely()
                    }),
                    _ => false,
                }
            },
            (CAH::Read(_), _) => after == self && answer is Nothing,
        }
    }

    /// The game after an action, and what it answers.
    pub fn step(self, action: Action) -> (r: (CAH, ActionResponse<Panel>))
        requires
            self.sound(),
        ensures
            r.0.sound(),
            self.follows(action, r.0, r.1),
    {
        if let Action::Done = action {
            return (self, ActionResponse::Exit);
        }
        match self {
            CAH::Setup(s) => {
                if let Action::Start = action {
                    match s.start() {
                        Ok(game) => {
                            let users = list_users(&game.players);
                            if users.len() == 1 {
                                (CAH::Read(game), ActionResponse::NextMain)
                            } else {
                                (CAH::Write(game), ActionResponse::NextMain)
                            }
                        },
                        Err(why) => (CAH::Setup(s), error(why.message())),
                    }
                } else {
                    (CAH::Setup(s), ActionResponse::Nothing)
                }
            },
            CAH::Write(g) => match action {
                Action::ShowHand => (CAH::Write(g), ActionResponse::Reply(Panel::Hand)),
                Action::ChangeHand => {
                    if g.everyone_done() {
                        (CAH::Read(g), ActionResponse::NextMain)
                    } else {
                        (CAH::Write(g), ActionResponse::EditMain)
                    }
                },
                _ => (CAH::Write(g), ActionResponse::Nothing),
            },
            CAH::Read(g) => {
                if let Action::Continue = action {
                    let mut g = g;
                    let ghost before = g;
                    let was = g.czar;
                    match g.next_round() {
                        Ok(_) => {
                            if g.czar.is(&was) {
                                (CAH::Read(g), ActionResponse::NextMain)
                            } else {
                                (CAH::Write(g), ActionResponse::NextMain)
                            }
                        },
                        Err(why) => (CAH::Read(g), error(why.message())),
                    }
                } else {
                    (CAH::Read(g), ActionResponse::Nothing)
                }
            },
        }
    }

    /// Takes an action.
    pub fn on_action(&mut self, action: Action, _panel: Panel, _user: &User) -> (r: ActionResponse<
        Panel,
    >)
        requires
            old(self).sound(),
        ensures
            final(self).sound(),
            old(self).follows(action, *final(self), r),
    {
        let mut state = CAH::Setup(Setup::empty());
        std::mem::swap(self, &mut state);
        let (next, answer) = state.step(action);
        *self = next;
        answer
    }
}

} // verus!
