//! What the game shows: the panels of the round.

use vstd::prelude::*;
use vstd::string::*;
use crate::cah::cards::{fills, Card, Packs, Player, PlayerKind, White};
use crate::cah::deal::{is_laid, laid_of};
use crate::cah::format::show_card;
use crate::cah::round::{sound_player, Ingame, CAH};
use crate::cah::setup::{Action, Panel, Setup};
use crate::chance::{is_order, numbers_below, shuffled, shuffled_order};
use crate::game::grid::{choice_button, is_grid, render_choices, selection_button};
use crate::game::panel::{grows_by, is_action, Event, GameMessage};
use crate::game::select::{closed, first_of, grid_press, opened, read_grid_press, without_open_end};
use crate::kind;
use crate::markup::{escape_string, escaped, FormatterView, InlineCodeState};
use crate::message::{ActionRowComponent, ButtonStyle, Field};
use crate::resource::Snowflake;
use crate::text::{
    breaks_of, decimal, decimal_text, join_lines, joined_lines, padded, padded_text,
    signed_decimal, signed_decimal_text, texts_of, with_breaks,
};

verus! {

/// A card written with answers, as a text.
pub open spec fn filled_text(packs: Packs, prompt: Card<true>, answers: Seq<Option<White>>) -> Seq<
    char,
> {
    show_card(
        packs,
        true,
        prompt.pack,
        prompt.card,
        prompt.player,
        answers,
        FormatterView { text: Seq::empty(), state: InlineCodeState::Outside },
    ).0.text
}

/// The line of a player on a list of scores: the points, set as code and at
/// least two characters wide, and the name.
pub open spec fn score_line(p: Player) -> Seq<char> {
    "`"@ + padded_text(p.points as int) + "` "@ + p.kind.name()
}

/// The line of a player on a list of scores, after a sign for what the
/// player is doing.
pub open spec fn signed_line(sign: Seq<char>, p: Player) -> Seq<char> {
    sign + " "@ + score_line(p)
}

/// Writes the line of a player on a list of scores.
pub fn write_score(p: &Player) -> (r: String)
    requires
        p.kind.numbered(),
    ensures
        r@ == score_line(*p),
{
    let mut r = String::from_str("`");
    let points = padded(p.points);
    r.append(points.as_str());
    r.append("` ");
    let name = p.kind.to_text();
    r.append(name.as_str());
    r
}

/// Writes the line of a player after a sign.
pub fn write_signed(sign: &str, p: &Player) -> (r: String)
    requires
        p.kind.numbered(),
    ensures
        r@ == signed_line(sign@, *p),
{
    let mut r = String::from_str(sign);
    r.append(" ");
    let line = write_score(p);
    r.append(line.as_str());
    r
}

impl Ingame {
    /// The sign of a player while the answers are written: a crown for the
    /// czar, a tick for a player who is done, a thought for one who is not.
    pub open spec fn writing_sign(self, p: Player) -> Seq<char> {
        if self.czar.same(p.kind) {
            "👑"@
        } else if fills(self.prompt.blanks(self.packs), self.packs, p.laid()) {
            "✅"@
        } else {
            "💭"@
        }
    }

    /// The sign of a player while the answers are read.
    pub open spec fn reading_sign(self, p: Player) -> Seq<char> {
        if self.czar.same(p.kind) {
            "👑"@
        } else {
            "✅"@
        }
    }

    /// The list of the players while the answers are written.
    pub open spec fn writing_list(self) -> Seq<char> {
        joined_lines(
            Seq::new(
                self.players@.len(),
                |i: int| signed_line(self.writing_sign(self.players@[i]), self.players@[i]),
            ),
        )
    }

    /// The list of the players while the answers are read.
    pub open spec fn reading_list(self) -> Seq<char> {
        joined_lines(
            Seq::new(
                self.players@.len(),
                |i: int| signed_line(self.reading_sign(self.players@[i]), self.players@[i]),
            ),
        )
    }

    /// The list of the scores.
    pub open spec fn score_list(self) -> Seq<char> {
        joined_lines(Seq::new(self.players@.len(), |i: int| score_line(self.players@[i])))
    }

    /// The prompt as the main panel shows it.
    pub open spec fn prompt_text(self) -> Seq<char> {
        escaped(breaks_of(self.prompt.data(self.packs).words()))
    }

    /// The hand of a player, one numbered card to a line.
    pub open spec fn hand_text(self, p: Player) -> Seq<char> {
        joined_lines(
            Seq::new(
                p.hand@.len(),
                |i: int|
                    decimal_text((i + 1) as nat) + ". ``"@ + p.hand@[i].data(self.packs).words()
                        + "``"@,
            ),
        )
    }

    /// Writes the list of the players while the answers are written.
    pub fn write_writing_list(&self) -> (r: String)
        requires
            self.sound(),
        ensures
            r@ == self.writing_list(),
    {
        let mut lines: Vec<String> = Vec::new();
        let mut i: usize = 0;
        while i < self.players.len()
            invariant
                self.sound(),
                i <= self.players.len(),
                lines@.len() == i,
                forall|k: int|
                    0 <= k < i ==> (#[trigger] lines@[k])@ == signed_line(
                        self.writing_sign(self.players@[k]),
                        self.players@[k],
                    ),
            decreases self.players.len() - i,
        {
            let p = &self.players[i];
            assert(sound_player(self.packs, *p));
            let sign = if self.czar.is(&p.kind) {
                "👑"
            } else {
                let laid = p.selected();
                proof {
                    assert forall|k: int| 0 <= k < laid@.len() implies (#[trigger] laid@[k] matches Some(
                        c,
                    ) ==> c.held_by(self.packs)) by {
                        if p.selected@[k] is Some {
                            assert(p.hand@[p.selected@[k]->0 as int].fit(self.packs));
                        }
                    }
                }
                if self.prompt.is_filled(&self.packs, &laid) {
                    "✅"
                } else {
                    "💭"
                }
            };
            lines.push(write_signed(sign, p));
            i = i + 1;
        }
        let r = join_lines(&lines);
        assert(texts_of(lines@) =~= Seq::new(
            self.players@.len(),
            |i: int| signed_line(self.writing_sign(self.players@[i]), self.players@[i]),
        ));
        r
    }

    /// Writes the list of the players while the answers are read.
    pub fn write_reading_list(&self) -> (r: String)
        requires
            self.sound(),
        ensures
            r@ == self.reading_list(),
    {
        let mut lines: Vec<String> = Vec::new();
        let mut i: usize = 0;
        while i < self.players.len()
            invariant
                self.sound(),
                i <= self.players.len(),
                lines@.len() == i,
                forall|k: int|
                    0 <= k < i ==> (#[trigger] lines@[k])@ == signed_line(
                        self.reading_sign(self.players@[k]),
                        self.players@[k],
                    ),
            decreases self.players.len() - i,
        {
            let p = &self.players[i];
            assert(sound_player(self.packs, *p));
            let sign = if self.czar.is(&p.kind) {
                "👑"
            } else {
                "✅"
            };
            lines.push(write_signed(sign, p));
            i = i + 1;
        }
        let r = join_lines(&lines);
        assert(texts_of(lines@) =~= Seq::new(
            self.players@.len(),
            |i: int| signed_line(self.reading_sign(self.players@[i]), self.players@[i]),
        ));
        r
    }

    /// Writes the list of the scores.
    pub fn write_scores(&self) -> (r: String)
        requires
            self.sound(),
        ensures
            r@ == self.score_list(),
    {
        let mut lines: Vec<String> = Vec::new();
        let mut i: usize = 0;
        while i < self.players.len()
            invariant
                self.sound(),
                i <= self.players.len(),
                lines@.len() == i,
                forall|k: int| 0 <= k < i ==> (#[trigger] lines@[k])@ == score_line(self.players@[k]),
            decreases self.players.len() - i,
        {
            assert(sound_player(self.packs, self.players@[i as int]));
            lines.push(write_score(&self.players[i]));
            i = i + 1;
        }
        let r = join_lines(&lines);
        assert(texts_of(lines@) =~= Seq::new(
            self.players@.len(),
            |i: int| score_line(self.players@[i]),
        ));
        r
    }

    /// Writes the hand of a player.
    pub fn write_hand(&self, p: &Player) -> (r: String)
        requires
            sound_player(self.packs, *p),
        ensures
            r@ == self.hand_text(*p),
    {
        let mut lines: Vec<String> = Vec::new();
        let mut i: usize = 0;
        while i < p.hand.len()
            invariant
                sound_player(self.packs, *p),
                i <= p.hand.len(),
                lines@.len() == i,
                forall|k: int|
                    0 <= k < i ==> (#[trigger] lines@[k])@ == decimal_text((k + 1) as nat)
                        + ". ``"@ + p.hand@[k].data(self.packs).words() + "``"@,
            decreases p.hand.len() - i,
        {
            assert(p.hand@[i as int].fit(self.packs));
            let mut line = decimal(i as u64 + 1);
            line.append(". ``");
            line.append(p.hand[i].text(&self.packs));
            line.append("``");
            lines.push(line);
            i = i + 1;
        }
        let r = join_lines(&lines);
        assert(texts_of(lines@) =~= Seq::new(
            p.hand@.len(),
            |i: int|
                decimal_text((i + 1) as nat) + ". ``"@ + p.hand@[i].data(self.packs).words() + "``"@,
        ));
        r
    }

    /// Builds the main panel while the answers are written: the list of the
    /// players, the prompt, and the button that shows a player the hand.
    pub fn create_write_main(&self, msg: &mut GameMessage)
        requires
            self.sound(),
        ensures
            final(msg).fields@.len() == old(msg).fields@.len() + 2,
            final(msg).fields@.take(old(msg).fields@.len() as int) == old(msg).fields@,
            ({
                let players = final(msg).fields@[old(msg).fields@.len() as int];
                let prompt = final(msg).fields@[old(msg).fields@.len() as int + 1];
                &&& players.name@ == "Players"@ && players.value@ == self.writing_list()
                    && !players.inline
                &&& prompt.name@ == "Prompt"@ && prompt.value@ == self.prompt_text()
                    && !prompt.inline
            }),
            exists|button: ActionRowComponent|
                is_action(button, ButtonStyle::Primary, "ShowHand"@, "Show Hand"@, false)
                    && grows_by(
                    old(msg).components@,
                    final(msg).components@,
                    button,
                ),
    {
        let ghost before = msg.fields@;
        let list = self.write_writing_list();
        msg.fields.push(Field::new("Players", list.as_str()));
        let words = with_breaks(self.prompt.text(&self.packs));
        let prompt = escape_string(words.as_str());
        msg.fields.push(Field::new("Prompt", prompt.as_str()));
        assert(msg.fields@.take(before.len() as int) =~= before);
        msg.append_action(Action::ShowHand.name(), ButtonStyle::Primary, String::from_str("Show Hand"));
    }
}

/// The places of the players who answer this round: all but the czar.
pub open spec fn answering(players: Seq<Player>, czar: PlayerKind) -> Seq<usize>
    decreases players.len(),
{
    if players.len() == 0 {
        Seq::empty()
    } else if czar.same(players.last().kind) {
        answering(players.drop_last(), czar)
    } else {
        answering(players.drop_last(), czar).push((players.len() - 1) as usize)
    }
}

/// The places of the players who answer are places of players who are not czar.
pub proof fn lemma_answering(players: Seq<Player>, czar: PlayerKind)
    requires
        players.len() <= usize::MAX,
    ensures
        answering(players, czar).len() <= players.len(),
        forall|k: int|
            0 <= k < answering(players, czar).len() ==> (#[trigger] answering(players, czar)[k])
                < players.len() && !czar.same(players[answering(players, czar)[k] as int].kind),
    decreases players.len(),
{
    if players.len() > 0 {
        lemma_answering(players.drop_last(), czar);
        let fewer = answering(players.drop_last(), czar);
        let now = answering(players, czar);
        assert forall|k: int| 0 <= k < now.len() implies (#[trigger] now[k]) < players.len()
            && !czar.same(players[now[k] as int].kind) by {
            if k < fewer.len() {
                assert(now[k] == fewer[k]);
                assert(fewer[k] < players.drop_last().len());
                assert(players.drop_last()[fewer[k] as int] == players[fewer[k] as int]);
            } else {
                assert(!czar.same(players.last().kind));
                assert(now[k] == (players.len() - 1) as usize);
                assert(players[players.len() - 1] == players.last());
            }
        }
    }
}

/// Lists the places of the players who answer this round.
pub fn list_answering(players: &Vec<Player>, czar: &PlayerKind) -> (r: Vec<usize>)
    ensures
        r@ == answering(players@, *czar),
{
    let mut r: Vec<usize> = Vec::new();
    let mut i: usize = 0;
    while i < players.len()
        invariant
            i <= players.len(),
            r@ == answering(players@.take(i as int), *czar),
        decreases players.len() - i,
    {
        proof {
            assert(players@.take(i + 1).drop_last() =~= players@.take(i as int));
            assert(players@.take(i + 1).last() == players@[i as int]);
        }
        if !czar.is(&players[i].kind) {
            r.push(i);
        }
        i = i + 1;
    }
    assert(players@.take(players.len() as int) =~= players@);
    r
}

impl Ingame {
    /// The number that the answers of the round are shuffled by: it is made
    /// of the place of the prompt, so that it stays the same for the round.
    pub open spec fn seed(self) -> u64 {
        (self.prompt.pack as u64 * 0x1_0000_0000 + self.prompt.card as u64) as u64
    }

    /// The places of the players who answer this round, in the order in
    /// which their answers are read out.
    pub open spec fn reading_order(self) -> Seq<usize> {
        let places = answering(self.players@, self.czar);
        let order = shuffled_order(self.seed(), numbers_below(places.len()));
        Seq::new(places.len(), |k: int| places[order[k] as int])
    }

    /// The places of the players who answer this round, shuffled for the round.
    pub fn random_indices(&self) -> (r: Vec<usize>)
        ensures
            r@ == self.reading_order(),
            forall|k: int|
                0 <= k < r@.len() ==> (#[trigger] r@[k]) < self.players@.len() && !self.czar.same(
                    self.players@[r@[k] as int].kind,
                ),
    {
        let places = list_answering(&self.players, &self.czar);
        let seed: u64 = self.prompt.pack as u64 * 0x1_0000_0000 + self.prompt.card as u64;
        let order = shuffled(seed, places.len());
        proof {
            assert(self.players.len() <= usize::MAX);
            lemma_answering(self.players@, self.czar);
        }
        let mut r: Vec<usize> = Vec::new();
        let mut k: usize = 0;
        while k < order.len()
            invariant
                k <= order.len() == places.len(),
                is_order(order@, places@.len()),
                r@.len() == k,
                forall|j: int| 0 <= j < k ==> r@[j] == places@[order@[j] as int],
            decreases order.len() - k,
        {
            r.push(places[order[k]]);
            k = k + 1;
        }
        assert(r@ =~= self.reading_order());
        r
    }

    /// The answers of the round, one numbered answer to a line, in the order
    /// in which they are read out.
    pub open spec fn answers_text(self) -> Seq<char> {
        let order = self.reading_order();
        joined_lines(
            Seq::new(
                order.len(),
                |k: int|
                    decimal_text((k + 1) as nat) + ". "@ + filled_text(
                        self.packs,
                        self.prompt,
                        self.players@[order[k] as int].laid(),
                    ),
            ),
        )
    }

    /// The prompt written with the answers that a player laid down.
    pub fn fill_for(&self, p: &Player) -> (r: String)
        requires
            self.sound(),
            sound_player(self.packs, *p),
        ensures
            r@ == filled_text(self.packs, self.prompt, p.laid()),
    {
        let laid = p.selected();
        proof {
            assert forall|k: int| 0 <= k < laid@.len() implies (#[trigger] laid@[k] matches Some(c)
                ==> c.held_by(self.packs) && c.player.numbered()) by {
                if p.selected@[k] is Some {
                    assert(p.hand@[p.selected@[k]->0 as int].fit(self.packs));
                }
            }
        }
        self.prompt.fill(&self.packs, &laid)
    }

    /// Writes the answers of the round.
    pub fn write_answers(&self) -> (r: String)
        requires
            self.sound(),
        ensures
            r@ == self.answers_text(),
    {
        let order = self.random_indices();
        let mut lines: Vec<String> = Vec::new();
        let mut k: usize = 0;
        while k < order.len()
            invariant
                self.sound(),
                k <= order.len(),
                order@ == self.reading_order(),
                forall|j: int| 0 <= j < order@.len() ==> (#[trigger] order@[j]) < self.players@.len(),
                lines@.len() == k,
                forall|j: int|
                    0 <= j < k ==> (#[trigger] lines@[j])@ == decimal_text((j + 1) as nat) + ". "@
                        + filled_text(
                        self.packs,
                        self.prompt,
                        self.players@[order@[j] as int].laid(),
                    ),
            decreases order.len() - k,
        {
            assert(order@[k as int] < self.players@.len());
            let p = &self.players[order[k]];
            assert(sound_player(self.packs, *p));
            let mut line = decimal(k as u64 + 1);
            line.append(". ");
            let answer = self.fill_for(p);
            line.append(answer.as_str());
            lines.push(line);
            k = k + 1;
        }
        let r = join_lines(&lines);
        assert(texts_of(lines@) =~= Seq::new(
            order@.len(),
            |k: int|
                decimal_text((k + 1) as nat) + ". "@ + filled_text(
                    self.packs,
                    self.prompt,
                    self.players@[order@[k] as int].laid(),
                ),
        ));
        r
    }

    /// The answer that the czar picked, if the event is the czar pressing
    /// the button of an answer.
    pub open spec fn picked(self, event: Event) -> Option<usize> {
        match (self.czar, event.press) {
            (PlayerKind::User(czar), Some(p)) => if p.user@ == czar@ {
                grid_press(event.press, answering(self.players@, self.czar).len() as usize)
            } else {
                None
            },
            _ => None,
        }
    }

    /// Tells which answer the czar picked.
    pub fn read_pick(&self, event: &Event) -> (r: Option<usize>)
        ensures
            r == self.picked(*event),
    {
        let places = list_answering(&self.players, &self.czar);
        match (&self.czar, &event.press) {
            (PlayerKind::User(czar), Some(p)) => {
                if p.user.as_int() == czar.as_int() {
                    read_grid_press(event, places.len())
                } else {
                    None
                }
            },
            _ => None,
        }
    }

    /// Builds the panel on which the answers are read: the list of the
    /// players, the answers in shuffled order, and a button for each answer.
    pub fn create_answers(&self, msg: &mut GameMessage)
        requires
            self.sound(),
            answering(self.players@, self.czar).len() <= 64,
        ensures
            final(msg).fields@.len() == old(msg).fields@.len() + 2,
            final(msg).fields@.take(old(msg).fields@.len() as int) == old(msg).fields@,
            ({
                let players = final(msg).fields@[old(msg).fields@.len() as int];
                let answers = final(msg).fields@[old(msg).fields@.len() as int + 1];
                &&& players.name@ == "Players"@ && players.value@ == self.reading_list()
                    && !players.inline
                &&& answers.name@ == "Answers"@ && answers.value@ == self.answers_text()
                    && !answers.inline
            }),
            final(msg).components@.take(old(msg).components@.len() as int) == old(msg).components@,
            is_grid(
                final(msg).components@.skip(old(msg).components@.len() as int),
                answering(self.players@, self.czar).len(),
                choice_button(
                    Seq::new(answering(self.players@, self.czar).len(), |k: int| k as usize),
                ),
            ),
    {
        let ghost before = msg.fields@;
        let list = self.write_reading_list();
        msg.fields.push(Field::new("Players", list.as_str()));
        let answers = self.write_answers();
        msg.fields.push(Field::new("Answers", answers.as_str()));
        assert(msg.fields@.take(before.len() as int) =~= before);
        let places = list_answering(&self.players, &self.czar);
        let mut plain: Vec<usize> = Vec::new();
        let mut k: usize = 0;
        while k < places.len()
            invariant
                k <= places.len() <= 64,
                plain@.len() == k,
                forall|j: int| 0 <= j < k ==> plain@[j] == j,
            decreases places.len() - k,
        {
            plain.push(k);
            k = k + 1;
        }
        assert(plain@ =~= Seq::new(places@.len(), |k: int| k as usize));
        let mut rows = render_choices(&plain);
        let ghost rows_before = msg.components@;
        let ghost grid = rows@;
        msg.components.append(&mut rows);
        assert(msg.components@.take(rows_before.len() as int) =~= rows_before);
        assert(msg.components@.skip(rows_before.len() as int) =~= grid);
    }

    /// The points of a player after one more point.
    pub open spec fn one_more(points: i32) -> i32 {
        if points == i32::MAX {
            points
        } else {
            (points + 1) as i32
        }
    }

    /// Gives the point of the round to the player whose answer was picked,
    /// and builds the panel that says so. Once that player has the points
    /// that win, the panel names the winner of the game and the game is
    /// done; else the panel has the button by which the next round starts.
    pub fn create_winner(&mut self, msg: &mut GameMessage, i: usize) -> (r: Option<Action>)
        requires
            old(self).sound(),
            i < answering(old(self).players@, old(self).czar).len(),
        ensures
            final(self).sound(),
            final(self).packs == old(self).packs,
            final(self).cards == old(self).cards,
            final(self).points == old(self).points,
            final(self).prompt == old(self).prompt,
            final(self).czar == old(self).czar,
            final(self).players@.len() == old(self).players@.len(),
            ({
                let winner = old(self).reading_order()[i as int] as int;
                let total = Ingame::one_more(old(self).players@[winner].points);
                let answer = filled_text(
                    old(self).packs,
                    old(self).prompt,
                    old(self).players@[winner].laid(),
                );
                let name = old(self).players@[winner].kind.name();
                let n = old(msg).fields@.len() as int;
                &&& 0 <= winner < old(self).players@.len()
                &&& forall|k: int|
                    0 <= k < old(self).players@.len() && k != winner ==> final(self).players@[k]
                        == old(self).players@[k]
                &&& final(self).players@[winner].points == total
                &&& final(self).players@[winner].kind == old(self).players@[winner].kind
                &&& final(self).players@[winner].hand == old(self).players@[winner].hand
                &&& final(self).players@[winner].selected == old(self).players@[winner].selected
                &&& r == (if total >= old(self).points {
                    Some(Action::Done)
                } else {
                    None
                })
                &&& final(msg).fields@.take(n) == old(msg).fields@
                &&& final(msg).fields@[n].name@ == "Players"@
                &&& final(msg).fields@[n].value@ == final(self).score_list()
                &&& if total >= old(self).points {
                    &&& final(msg).fields@.len() == n + 3
                    &&& final(msg).fields@[n + 1].name@ == "We have a winner!"@
                    &&& final(msg).fields@[n + 1].value@ == name + " won the game with `"@
                        + signed_decimal_text(total as int) + "` points!"@
                    &&& final(msg).fields@[n + 2].name@ == "Last words"@
                    &&& final(msg).fields@[n + 2].value@ == ">>> "@ + answer
                    &&& final(msg).components == old(msg).components
                } else {
                    &&& final(msg).fields@.len() == n + 2
                    &&& final(msg).fields@[n + 1].name@ == "Round Winner"@
                    &&& final(msg).fields@[n + 1].value@ == name + "\n\n>>> "@ + answer
                    &&& exists|button: ActionRowComponent|
                        is_action(button, ButtonStyle::Primary, "Continue"@, "Continue"@, false)
                            && grows_by(
                            old(msg).components@,
                            final(msg).components@,
                            button,
                        )
                }
            }),
    {
        let order = self.random_indices();
        let winner = order[i];
        let ghost before = *self;
        assert(sound_player(self.packs, self.players@[winner as int]));
        let answer = self.fill_for(&self.players[winner]);
        let name = self.players[winner].kind.to_text();
        let was = self.players.remove(winner);
        let total = if was.points == i32::MAX {
            was.points
        } else {
            was.points + 1
        };
        let Player { kind, points: _, hand, selected } = was;
        self.players.insert(winner, Player { kind, points: total, hand, selected });
        proof {
            assert(self.players@[winner as int].kind == before.players@[winner as int].kind);
            assert forall|k: int| 0 <= k < self.players@.len() implies sound_player(
                self.packs,
                #[trigger] self.players@[k],
            ) by {
                assert(sound_player(before.packs, before.players@[k]));
                if k != winner {
                    assert(self.players@[k] == before.players@[k]);
                } else {
                    assert(self.players@[k].laid() =~= before.players@[k].laid());
                }
            }
            let w = choose|w: int|
                0 <= w < before.players@.len() && before.players@[w].kind.same(before.czar);
            assert(self.players@[w].kind == before.players@[w].kind);
        }
        let scores = self.write_scores();
        let ghost fields = msg.fields@;
        msg.fields.push(Field::new("Players", scores.as_str()));
        if total >= self.points {
            let mut text = name;
            text.append(" won the game with `");
            let number = signed_decimal(total as i64);
            text.append(number.as_str());
            text.append("` points!");
            msg.fields.push(Field::new("We have a winner!", text.as_str()));
            let mut last = String::from_str(">>> ");
            last.append(answer.as_str());
            msg.fields.push(Field::new("Last words", last.as_str()));
            assert(msg.fields@.take(fields.len() as int) =~= fields);
            Some(Action::Done)
        } else {
            let mut text = name;
            text.append("\n\n>>> ");
            text.append(answer.as_str());
            msg.fields.push(Field::new("Round Winner", text.as_str()));
            assert(msg.fields@.take(fields.len() as int) =~= fields);
            msg.append_action(
                Action::Continue.name(),
                ButtonStyle::Primary,
                String::from_str("Continue"),
            );
            None
        }
    }

    /// Builds the panel on which the answers are read, or, when the event is
    /// the czar picking an answer, the panel that names the winner of the round.
    pub fn create_read(&mut self, msg: &mut GameMessage, event: &Event) -> (r: Option<Action>)
        requires
            old(self).sound(),
            answering(old(self).players@, old(self).czar).len() <= 64,
        ensures
            final(self).sound(),
            old(self).read_shown(*final(self), *old(msg), *final(msg), *event, r),
            old(self).picked(*event) matches Some(i) ==> r == (if Ingame::one_more(
                old(self).players@[old(self).reading_order()[i as int] as int].points,
            ) >= old(self).points {
                Some(Action::Done)
            } else {
                None
            }),
    {
        match self.read_pick(event) {
            Some(i) => self.create_winner(msg, i),
            None => {
                self.create_answers(msg);
                None
            },
        }
    }
}

/// Whether the places laid down are places of a hand of `size` cards.
pub open spec fn within(selected: Seq<Option<usize>>, size: nat) -> bool {
    forall|i: int| 0 <= i < selected.len() ==> (#[trigger] selected[i] matches Some(k) ==> k < size)
}

/// Whether the cards at some places of a hand fill a prompt.
pub open spec fn hand_fills(
    packs: Packs,
    prompt: Card<true>,
    hand: Seq<White>,
    selected: Seq<Option<usize>>,
) -> bool {
    within(selected, hand.len()) && fills(prompt.blanks(packs), packs, laid_of(hand, selected))
}

/// Tells whether the cards at some places of a hand fill a prompt.
pub fn fills_from(packs: &Packs, prompt: Card<true>, hand: &Vec<White>, selected: &Vec<Option<usize>>) -> (r:
    bool)
    requires
        prompt.held_by(*packs),
        forall|k: int| 0 <= k < hand@.len() ==> (#[trigger] hand@[k]).fit(*packs),
    ensures
        r == hand_fills(*packs, prompt, hand@, selected@),
{
    let mut laid: Vec<Option<White>> = Vec::new();
    let mut i: usize = 0;
    while i < selected.len()
        invariant
            i <= selected.len(),
            within(selected@.take(i as int), hand@.len()),
            laid@.len() == i,
            forall|k: int| 0 <= k < i ==> laid@[k] == laid_of(hand@, selected@)[k],
        decreases selected.len() - i,
    {
        match selected[i] {
            Some(k) => {
                if k >= hand.len() {
                    return false;
                }
                laid.push(Some(hand[k]));
            },
            None => {
                laid.push(None);
            },
        }
        proof {
            assert forall|j: int| 0 <= j < i + 1 implies (#[trigger] selected@.take(i + 1)[j] matches Some(
                k,
            ) ==> k < hand@.len()) by {
                if j < i {
                    assert(selected@.take(i as int)[j] == selected@[j]);
                }
            }
        }
        i = i + 1;
    }
    proof {
        assert(selected@.take(selected.len() as int) =~= selected@);
        assert(laid@ =~= laid_of(hand@, selected@));
        assert forall|k: int| 0 <= k < laid@.len() implies (#[trigger] laid@[k] matches Some(c)
            ==> c.held_by(*packs)) by {
            if selected@[k] is Some {
                assert(hand@[selected@[k]->0 as int].fit(*packs));
            }
        }
    }
    prompt.is_filled(packs, &laid)
}

/// Selecting or opening a place of a hand leaves the places within the hand.
pub proof fn lemma_stays_within(selected: Seq<Option<usize>>, size: nat, place: usize)
    requires
        within(selected, size),
        place < size,
    ensures
        within(closed(selected, place), size),
        within(opened(selected, place), size),
{
    let first = first_of(selected, Some(place));
    if first < selected.len() {
        lemma_first_of(selected, Some(place));
        lemma_trimmed_within(selected.update(first, None), size);
    } else {
        lemma_trimmed_within(selected, size);
    }
    lemma_first_of(selected, None);
}

/// The first place of a value lies within the selection or at its end.
pub proof fn lemma_first_of(selected: Seq<Option<usize>>, value: Option<usize>)
    ensures
        0 <= first_of(selected, value) <= selected.len(),
    decreases selected.len(),
{
    if selected.len() > 0 && selected[0] != value {
        lemma_first_of(selected.drop_first(), value);
    }
}

/// Dropping open places at the end leaves the places within the hand.
pub proof fn lemma_trimmed_within(selected: Seq<Option<usize>>, size: nat)
    requires
        within(selected, size),
    ensures
        within(without_open_end(selected), size),
    decreases selected.len(),
{
    if selected.len() > 0 && selected.last() is None {
        assert forall|i: int| 0 <= i < selected.drop_last().len() implies (
        #[trigger] selected.drop_last()[i] matches Some(k) ==> k < size) by {
            assert(selected.drop_last()[i] == selected[i]);
        }
        lemma_trimmed_within(selected.drop_last(), size);
    }
}

/// Finds the place of a player.
pub fn find_kind(players: &Vec<Player>, who: &PlayerKind) -> (r: Option<usize>)
    ensures
        match r {
            Some(i) => i < players@.len() && players@[i as int].kind.same(*who) && forall|j: int|
                0 <= j < i ==> !players@[j].kind.same(*who),
            None => forall|j: int| 0 <= j < players@.len() ==> !players@[j].kind.same(*who),
        },
{
    let mut i: usize = 0;
    while i < players.len()
        invariant
            i <= players.len(),
            forall|j: int| 0 <= j < i ==> !players@[j].kind.same(*who),
        decreases players.len() - i,
    {
        if players[i].kind.is(who) {
            return Some(i);
        }
        i = i + 1;
    }
    None
}

impl Ingame {
    /// Builds the panel that shows a user the hand, after selecting or
    /// opening the card that the event pressed. A user who does not play is
    /// shown nothing. The czar is shown the hand alone; any other player also
    /// the grid to select by and the prompt with what is selected.
    ///
    /// The panel asks for `ChangeHand` when the press completed the
    /// selection, or opened a selection that was complete.
    pub fn create_hand(&mut self, msg: &mut GameMessage, event: &Event, user: Snowflake<kind::User>) -> (r:
        Option<Action>)
        requires
            old(self).sound(),
            old(self).dealt(),
            old(self).cards <= 64,
        ensures
            final(self).sound(),
            final(self).dealt(),
            final(self).packs == old(self).packs,
            final(self).cards == old(self).cards,
            final(self).points == old(self).points,
            final(self).prompt == old(self).prompt,
            final(self).czar == old(self).czar,
            final(self).players@.len() == old(self).players@.len(),
            ({
                let who = PlayerKind::User(user);
                let players = old(self).players@;
                if forall|j: int| 0 <= j < players.len() ==> !players[j].kind.same(who) {
                    &&& r is None
                    &&& *final(self) == *old(self)
                    &&& *final(msg) == *old(msg)
                } else {
                    let at = choose|at: int|
                        0 <= at < players.len() && players[at].kind.same(who) && forall|j: int|
                            0 <= j < at ==> !players[j].kind.same(who);
                    let before = players[at];
                    let after = final(self).players@[at];
                    let n = old(msg).fields@.len() as int;
                    &&& forall|k: int|
                        0 <= k < players.len() && k != at ==> final(self).players@[k] == players[k]
                    &&& after.kind == before.kind && after.points == before.points && after.hand
                        == before.hand
                    &&& final(msg).fields@.take(n) == old(msg).fields@
                    &&& final(msg).fields@.last().name@ == "Hand"@
                    &&& final(msg).fields@.last().value@ == old(self).hand_text(before)
                    &&& if old(self).czar.same(who) {
                        &&& r is None
                        &&& after.selected == before.selected
                        &&& final(msg).fields@.len() == n + 1
                        &&& final(msg).components == old(msg).components
                    } else {
                        let press = grid_press(event.press, old(self).cards);
                        let complete_before = hand_fills(
                            old(self).packs,
                            old(self).prompt,
                            before.hand@,
                            before.selected@,
                        );
                        let complete_after = hand_fills(
                            old(self).packs,
                            old(self).prompt,
                            before.hand@,
                            after.selected@,
                        );
                        &&& final(msg).fields@.len() == n + 2
                        &&& final(msg).fields@[n].name@ == "Answer"@
                        &&& final(msg).fields@[n].value@ == filled_text(
                            old(self).packs,
                            old(self).prompt,
                            after.laid(),
                        )
                        &&& final(msg).components@.take(old(msg).components@.len() as int) == old(
                            msg,
                        ).components@
                        &&& match press {
                            Some(place) => if is_laid(before.selected@, place as int) {
                                &&& after.selected@ == opened(
                                    before.selected@,
                                    place,
                                )
                                &&& r is Some == complete_before
                                &&& is_grid(
                                    final(msg).components@.skip(old(msg).components@.len() as int),
                                    old(self).cards as nat,
                                    selection_button(after.selected@, false),
                                )
                            } else {
                                &&& after.selected@ == closed(
                                    before.selected@,
                                    place,
                                )
                                &&& r is Some == complete_after
                                &&& is_grid(
                                    final(msg).components@.skip(old(msg).components@.len() as int),
                                    old(self).cards as nat,
                                    selection_button(
                                        after.selected@,
                                        complete_after,
                                    ),
                                )
                            },
                            None => {
                                &&& after.selected == before.selected
                                &&& r is None
                                &&& is_grid(
                                    final(msg).components@.skip(old(msg).components@.len() as int),
                                    old(self).cards as nat,
                                    selection_button(
                                        after.selected@,
                                        complete_before,
                                    ),
                                )
                            },
                        }
                        &&& r is Some ==> r == Some(Action::ChangeHand)
                    }
                }
            }),
    {
        let who = PlayerKind::User(user);
        let at = match find_kind(&self.players, &who) {
            Some(at) => at,
            None => {
                return None;
            },
        };
        let ghost start = *self;
        let ghost fields = msg.fields@;
        let ghost rows = msg.components@;
        assert(sound_player(self.packs, self.players@[at as int]));
        let player = self.players.remove(at);
        let Player { kind, points, hand, selected } = player;
        let ghost before_selected = selected;
        let mut selected = selected;
        let mut changed = false;
        if !self.czar.is(&who) {
            let packs = &self.packs;
            let prompt = self.prompt;
            let cards = self.cards;
            let hand_ref = &hand;
            let done = |s: &Vec<Option<usize>>| -> (b: bool)
                ensures
                    b == hand_fills(*packs, prompt, hand_ref@, s@),
                { fills_from(packs, prompt, hand_ref, s) };
            changed = msg.create_select_grid(event, cards, &mut selected, done);
            proof {
                let press = grid_press(event.press, cards);
                assert(within(before_selected@, hand@.len()));
                if press is Some {
                    lemma_stays_within(before_selected@, hand@.len(), press->0);
                }
            }
        }
        let now = Player { kind, points, hand, selected };
        proof {
            assert(sound_player(self.packs, now)) by {
                assert(within(now.selected@, now.hand@.len()));
            }
        }
        if !self.czar.is(&who) {
            let laid = now.selected();
            proof {
                assert forall|k: int| 0 <= k < laid@.len() implies (#[trigger] laid@[k] matches Some(c)
                    ==> c.held_by(self.packs) && c.player.numbered()) by {
                    if now.selected@[k] is Some {
                        assert(now.hand@[now.selected@[k]->0 as int].fit(self.packs));
                    }
                }
            }
            let answer = self.prompt.fill(&self.packs, &laid);
            msg.fields.push(Field::new("Answer", answer.as_str()));
        }
        let text = self.write_hand(&now);
        msg.fields.push(Field::new("Hand", text.as_str()));
        self.players.insert(at, now);
        proof {
            assert(msg.fields@.take(fields.len() as int) =~= fields);
            assert forall|k: int| 0 <= k < self.players@.len() implies sound_player(
                self.packs,
                #[trigger] self.players@[k],
            ) && self.players@[k].hand@.len() == self.cards by {
                if k != at {
                    assert(self.players@[k] == start.players@[k]);
                    assert(sound_player(start.packs, start.players@[k]));
                }
            }
            let w = choose|w: int|
                0 <= w < start.players@.len() && start.players@[w].kind.same(start.czar);
            assert(self.players@[w].kind == start.players@[w].kind);
            assert(self.hand_text(now) == start.hand_text(start.players@[at as int]));
        }
        if changed {
            Some(Action::ChangeHand)
        } else {
            None
        }
    }

    /// Builds a panel while the answers are written: the main panel, or the
    /// hand of a user.
    pub fn create_write(
        &mut self,
        msg: &mut GameMessage,
        event: &Event,
        panel: Panel,
        user: Snowflake<kind::User>,
    ) -> (r: Option<Action>)
        requires
            old(self).sound(),
            old(self).dealt(),
            old(self).cards <= 64,
        ensures
            final(self).sound(),
            final(self).dealt(),
            old(self).write_shown(*final(self), *old(msg), *final(msg), *event, panel, user, r),
            r matches Some(a) ==> a == Action::ChangeHand,
    {
        match panel {
            Panel::Main => {
                self.create_write_main(msg);
                None
            },
            Panel::Hand => self.create_hand(msg, event, user),
        }
    }
}

impl CAH {
    /// Whether the panels of the game can be built: hands are full and no
    /// grid has more buttons than can be numbered.
    pub open spec fn showable(self) -> bool {
        match self {
            CAH::Setup(s) => s.packs.0@.len() <= 64,
            CAH::Write(g) => g.dealt() && g.cards <= 64,
            CAH::Read(g) => answering(g.players@, g.czar).len() <= 64,
        }
    }

    /// Builds a panel of the game at its stage, after taking what the event
    /// asks for, and says which action the panel asks for, if any.
    pub fn create_panel(
        &mut self,
        msg: &mut GameMessage,
        event: &Event,
        panel: Panel,
        user: Snowflake<kind::User>,
    ) -> (r: Option<Action>)
        requires
            old(self).sound(),
            old(self).showable(),
        ensures
            final(self).sound(),
            old(self).panel_shown(*final(self), *old(msg), *final(msg), *event, panel, user, r),
            *old(self) is Setup ==> r is None,
            *old(self) is Write ==> (r matches Some(a) ==> a == Action::ChangeHand),
            *old(self) is Read ==> (r matches Some(a) ==> a == Action::Done),
    {
        let mut state = CAH::Setup(Setup::empty());
        std::mem::swap(self, &mut state);
        let (next, r) = match state {
            CAH::Setup(s) => {
                let mut s = s;
                let r = s.create(msg, event);
                (CAH::Setup(s), r)
            },
            CAH::Write(g) => {
                let mut g = g;
                let r = g.create_write(msg, event, panel, user);
                (CAH::Write(g), r)
            },
            CAH::Read(g) => {
                let mut g = g;
                let r = g.create_read(msg, event);
                (CAH::Read(g), r)
            },
        };
        *self = next;
        r
    }
}

} // verus!
