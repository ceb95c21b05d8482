//! Cards, packs and players.

use std::sync::Arc;
use vstd::prelude::*;
use vstd::string::*;
use crate::kind;
use crate::markup::{
    code_ended, code_started, written, written_raw, DiscordFormatter, DisplayDiscord, FormatterView};
use crate::resource::Snowflake;
use crate::text::{count_char, count_of, decimal_text, push_decimal};
use crate::user::user_mention;

verus! {

/// A card as a pack holds it: its text alone, with an underscore for each
/// blank, or its text and how many answers it takes.
pub enum CardData {
    Raw(String),
    Full { text: String, pick: usize },
}

impl CardData {
    /// The text of the card.
    pub open spec fn words(self) -> Seq<char> {
        match self {
            CardData::Raw(s) => s@,
            CardData::Full { text, .. } => text@,
        }
    }

    /// Whether the card can be played: it takes no fewer answers than its
    /// text has blanks.
    pub open spec fn playable(self) -> bool {
        self matches CardData::Full { text, pick } ==> pick >= count_of(text@, '_')
    }

    /// How many answers the card takes as a prompt: one at least.
    pub open spec fn black_blanks(self) -> nat {
        match self {
            CardData::Raw(s) => if count_of(s@, '_') == 0 {
                1
            } else {
                count_of(s@, '_')
            },
            CardData::Full { pick, .. } => pick as nat,
        }
    }

    /// How many answers the card takes as an answer.
    pub open spec fn white_blanks(self) -> nat {
        match self {
            CardData::Raw(s) => count_of(s@, '_'),
            CardData::Full { pick, .. } => pick as nat,
        }
    }

    /// How many answers the card takes beyond the blanks in its text.
    pub open spec fn spare_blanks(self) -> nat {
        match self {
            CardData::Raw(s) => if count_of(s@, '_') == 0 {
                1
            } else {
                0
            },
            CardData::Full { text, pick } => (pick - count_of(text@, '_')) as nat,
        }
    }

    pub fn blanks_black(&self) -> (r: usize)
        ensures
            r == self.black_blanks(),
    {
        match self {
            CardData::Raw(s) => {
                let n = count_char(s.as_str(), '_');
                if n == 0 {
                    1
                } else {
                    n
                }
            },
            CardData::Full { pick, .. } => *pick,
        }
    }

    pub fn blanks_white(&self) -> (r: usize)
        ensures
            r == self.white_blanks(),
    {
        match self {
            CardData::Raw(s) => count_char(s.as_str(), '_'),
            CardData::Full { pick, .. } => *pick,
        }
    }

    pub fn extra_blanks(&self) -> (r: usize)
        requires
            self.playable(),
        ensures
            r == self.spare_blanks(),
    {
        match self {
            CardData::Raw(s) => {
                if count_char(s.as_str(), '_') > 0 {
                    0
                } else {
                    1
                }
            },
            CardData::Full { text, pick } => *pick - count_char(text.as_str(), '_'),
        }
    }

    /// The text of the card.
    pub fn text(&self) -> (r: &str)
        ensures
            r@ == self.words(),
    {
        match self {
            CardData::Raw(text) => text.as_str(),
            CardData::Full { text, .. } => text.as_str(),
        }
    }
}

/// The cards of a pack.
pub struct PackData {
    pub black: Vec<CardData>,
    pub white: Vec<CardData>,
}

/// A pack and its name.
pub struct Pack {
    pub name: String,
    pub data: PackData,
}

/// The two kinds of card.
#[derive(Clone, Copy, Debug, PartialEq, Eq, Structural)]
pub enum CardType {
    /// An answer.
    White,
    /// A prompt.
    Black,
}

/// Who plays: a user, or one of the players that answer at random.
#[derive(Clone, Copy)]
pub enum PlayerKind {
    User(Snowflake<kind::User>),
    Rando(usize),
}

impl PlayerKind {
    /// Whether this is the same player as another.
    pub open spec fn same(self, other: PlayerKind) -> bool {
        match (self, other) {
            (PlayerKind::User(a), PlayerKind::User(b)) => a@ == b@,
            (PlayerKind::Rando(a), PlayerKind::Rando(b)) => a == b,
            _ => false,
        }
    }

    /// The name of the player as it stands in plain text.
    pub open spec fn name(self) -> Seq<char> {
        match self {
            PlayerKind::User(u) => user_mention(u@),
            PlayerKind::Rando(i) => "``Rando Cardrissian #"@ + decimal_text((i + 1) as nat) + "``"@,
        }
    }

    /// Whether the number of the player can be written.
    pub open spec fn numbered(self) -> bool {
        self matches PlayerKind::Rando(i) ==> i < usize::MAX
    }

    pub fn is_user(&self) -> (r: bool)
        ensures
            r == (*self is User),
    {
        match self {
            PlayerKind::User(_) => true,
            PlayerKind::Rando(_) => false,
        }
    }

    /// Tells whether this is the same player as another.
    pub fn is(&self, other: &PlayerKind) -> (r: bool)
        ensures
            r == self.same(*other),
    {
        match (self, other) {
            (PlayerKind::User(a), PlayerKind::User(b)) => a.as_int() == b.as_int(),
            (PlayerKind::Rando(a), PlayerKind::Rando(b)) => *a == *b,
            _ => false,
        }
    }

    /// The name of the player as it stands in plain text.
    pub fn to_text(&self) -> (r: String)
        requires
            self.numbered(),
        ensures
            r@ == self.name(),
    {
        match self {
            PlayerKind::User(u) => u.mention(),
            PlayerKind::Rando(i) => {
                let mut r = String::from_str("``Rando Cardrissian #");
                push_decimal(&mut r, (*i + 1) as u64);
                r.append("``");
                r
            },
        }
    }

    /// Shows the player in a message: a user by a mention, written past the
    /// markup rules, and a random player by its name as inline code.
    pub fn show(&self, f: &mut DiscordFormatter)
        requires
            self.numbered(),
        ensures
            final(f)@ == self.shown(old(f)@),
    {
        match self {
            PlayerKind::User(u) => {
                f.unescaped("<@");
                let id = u.to_text();
                f.write_str(id.as_str());
                f.unescaped(">");
            },
            PlayerKind::Rando(i) => {
                f.start_code();
                f.write_str("Rando Cardrissian #");
                let mut number = String::new();
                push_decimal(&mut number, (*i + 1) as u64);
                assert(number@ =~= decimal_text((*i + 1) as nat));
                f.write_str(number.as_str());
                f.end_code();
            },
        }
    }
}

impl DisplayDiscord for PlayerKind {
    open spec fn showable(&self) -> bool {
        self.numbered()
    }

    open spec fn shown(&self, f: FormatterView) -> FormatterView {
        match self {
            PlayerKind::User(u) => written_raw(
                written(written_raw(f, "<@"@), decimal_text(u@ as nat)),
                ">"@,
            ),
            PlayerKind::Rando(i) => code_ended(
                written(
                    written(code_started(f), "Rando Cardrissian #"@),
                    decimal_text((i + 1) as nat),
                ),
            ),
        }
    }

    fn fmt(&self, f: &mut DiscordFormatter) {
        self.show(f)
    }
}

/// A card in play: where it lies in the packs, and which player it names
/// where its text leaves room for a name. `BLACK` tells prompts from answers.
#[derive(Clone, Copy)]
pub struct Card<const BLACK: bool> {
    pub pack: u32,
    pub card: u32,
    pub player: PlayerKind,
}

/// The packs that a game is played with.
pub struct Packs(pub Vec<Arc<Pack>>);

impl Packs {
    /// The cards of one kind in one pack.
    pub open spec fn cards(self, black: bool, pack: int) -> Seq<CardData> {
        if black {
            self.0@[pack].data.black@
        } else {
            self.0@[pack].data.white@
        }
    }

    /// Whether there is a card of one kind at a place.
    pub open spec fn has(self, black: bool, pack: u32, card: u32) -> bool {
        pack < self.0@.len() && card < self.cards(black, pack as int).len()
    }

    /// The card of one kind at a place.
    pub open spec fn at(self, black: bool, pack: u32, card: u32) -> CardData {
        self.cards(black, pack as int)[card as int]
    }

    /// Whether the packs can be played with: every card can be played, and
    /// packs and cards are few enough to be numbered.
    pub open spec fn playable(self) -> bool {
        &&& self.0@.len() <= u32::MAX
        &&& forall|black: bool, pack: int|
            0 <= pack < self.0@.len() ==> (#[trigger] self.cards(black, pack)).len() <= u32::MAX
        &&& forall|black: bool, pack: int, card: int|
            0 <= pack < self.0@.len() && 0 <= card < self.cards(black, pack).len() ==> (
            #[trigger] self.cards(black, pack)[card]).playable()
    }

    /// The card of one kind at a place.
    pub fn index(&self, black: bool, pack: u32, card: u32) -> (r: &CardData)
        requires
            self.has(black, pack, card),
        ensures
            *r == self.at(black, pack, card),
    {
        if black {
            &self.0[pack as usize].data.black[card as usize]
        } else {
            &self.0[pack as usize].data.white[card as usize]
        }
    }
}

impl<const BLACK: bool> Card<BLACK> {
    /// The kind of this card.
    pub fn card_type(&self) -> (r: CardType)
        ensures
            r == (if BLACK {
                CardType::Black
            } else {
                CardType::White
            }),
    {
        if BLACK {
            CardType::Black
        } else {
            CardType::White
        }
    }

    /// Whether the packs hold this card.
    pub open spec fn held_by(self, packs: Packs) -> bool {
        packs.has(BLACK, self.pack, self.card)
    }

    /// Whether this card can be written with these packs: they hold it, and
    /// the player that it names can be written.
    pub open spec fn fit(self, packs: Packs) -> bool {
        self.held_by(packs) && self.player.numbered()
    }

    /// The card as the packs hold it.
    pub open spec fn data(self, packs: Packs) -> CardData {
        packs.at(BLACK, self.pack, self.card)
    }

    /// How many answers the card takes: as a prompt one at least.
    pub open spec fn blanks(self, packs: Packs) -> nat {
        if BLACK {
            self.data(packs).black_blanks()
        } else {
            self.data(packs).white_blanks()
        }
    }

    /// The text of the card.
    pub fn text(self, packs: &Packs) -> (r: &str)
        requires
            self.held_by(*packs),
        ensures
            r@ == self.data(*packs).words(),
    {
        packs.index(BLACK, self.pack, self.card).text()
    }
}

/// The answers that a player has laid down, in order; `None` where a place
/// is still open.
pub type White = Card<false>;

/// Whether every answer up to the first open place is a card of the packs.
pub open spec fn answers_held(packs: Packs, answers: Seq<Option<White>>) -> bool {
    forall|i: int|
        0 <= i < answers.len() && (forall|j: int| 0 <= j < i ==> answers[j] is Some)
            ==> (#[trigger] answers[i] matches Some(c) ==> c.held_by(packs))
}

/// How many answers the cards among some answers take themselves.
pub open spec fn blanks_within(packs: Packs, answers: Seq<Option<White>>) -> nat
    decreases answers.len(),
{
    if answers.len() == 0 {
        0
    } else {
        blanks_within(packs, answers.drop_last()) + match answers.last() {
            Some(c) => c.blanks(packs),
            None => 0,
        }
    }
}

/// Whether some answers fill a card: no place among them is open, and they
/// are as many as the card and the answers themselves take.
pub open spec fn fills(blanks: nat, packs: Packs, answers: Seq<Option<White>>) -> bool {
    &&& forall|i: int| 0 <= i < answers.len() ==> answers[i] is Some
    &&& answers.len() == blanks + blanks_within(packs, answers)
}

impl<const BLACK: bool> Card<BLACK> {
    /// Tells whether some answers fill this card.
    pub fn is_filled(self, packs: &Packs, white: &Vec<Option<White>>) -> (r: bool)
        requires
            self.held_by(*packs),
            answers_held(*packs, white@),
        ensures
            r == fills(self.blanks(*packs), *packs, white@),
    {
        let own = if BLACK {
            packs.index(BLACK, self.pack, self.card).blanks_black()
        } else {
            packs.index(BLACK, self.pack, self.card).blanks_white()
        };
        let mut blanks: usize = own;
        let mut i: usize = 0;
        while i < white.len()
            invariant
                i <= white.len(),
                answers_held(*packs, white@),
                forall|j: int| 0 <= j < i ==> white@[j] is Some,
                blanks == own + blanks_within(*packs, white@.take(i as int)),
                own == self.blanks(*packs),
            decreases white.len() - i,
        {
            proof {
                assert(white@.take(i + 1).drop_last() =~= white@.take(i as int));
                assert(white@.take(i + 1).last() == white@[i as int]);
                assert(white@.take(white@.len() as int) =~= white@);
                lemma_blanks_within_grows(*packs, white@, i + 1);
            }
            match white[i] {
                Some(card) => {
                    let more = packs.index(false, card.pack, card.card).blanks_white();
                    if more > usize::MAX - blanks {
                        return false;
                    }
                    blanks = blanks + more;
                },
                None => {
                    return false;
                },
            }
            i = i + 1;
        }
        assert(white@.take(white.len() as int) =~= white@);
        white.len() == blanks
    }
}

/// The answers within a longer run take no fewer answers than those within
/// a shorter one.
pub proof fn lemma_blanks_within_grows(packs: Packs, answers: Seq<Option<White>>, n: int)
    requires
        0 <= n <= answers.len(),
    ensures
        blanks_within(packs, answers.take(n)) <= blanks_within(packs, answers),
    decreases answers.len() - n,
{
    if n < answers.len() {
        assert(answers.take(n + 1).drop_last() =~= answers.take(n));
        lemma_blanks_within_grows(packs, answers, n + 1);
    } else {
        assert(answers.take(n) =~= answers);
    }
}

/// A player.
pub struct Player {
    pub kind: PlayerKind,
    pub points: i32,
    pub hand: Vec<White>,
    /// The places in the hand of the cards that are laid down.
    pub selected: Vec<Option<usize>>,
}

impl Player {
    /// The cards that the player has laid down.
    pub open spec fn laid(self) -> Seq<Option<White>> {
        Seq::new(
            self.selected@.len(),
            |i: int|
                match self.selected@[i] {
                    Some(k) => Some(self.hand@[k as int]),
                    None => None,
                },
        )
    }

    /// Whether every card laid down is one of the hand.
    pub open spec fn in_hand(self) -> bool {
        forall|i: int|
            0 <= i < self.selected@.len() ==> (#[trigger] self.selected@[i] matches Some(k) ==> k
                < self.hand@.len())
    }

    /// A player without points and without cards.
    pub fn new(kind: PlayerKind) -> (r: Self)
        ensures
            r.kind == kind,
            r.points == 0,
            r.hand@.len() == 0,
            r.selected@.len() == 0,
    {
        Player { kind, points: 0, hand: Vec::new(), selected: Vec::new() }
    }

    /// The cards that the player has laid down, in order.
    pub fn selected(&self) -> (r: Vec<Option<White>>)
        requires
            self.in_hand(),
        ensures
            r@ == self.laid(),
    {
        let mut r: Vec<Option<White>> = Vec::new();
        let mut i: usize = 0;
        while i < self.selected.len()
            invariant
                i <= self.selected.len(),
                self.in_hand(),
                r@.len() == i,
                forall|k: int| 0 <= k < i ==> r@[k] == self.laid()[k],
            decreases self.selected.len() - i,
        {
            match self.selected[i] {
                Some(k) => {
                    r.push(Some(self.hand[k]));
                },
                None => {
                    r.push(None);
                },
            }
            i = i + 1;
        }
        assert(r@ =~= self.laid());
        r
    }
}

} // verus!
