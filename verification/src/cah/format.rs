//! How a card reads once answers are set into its blanks.
//!
//! A prompt is written with each underscore replaced by the next answer and
//! each pair of braces by the name of the player that the card was drawn for.
//! An answer may have blanks of its own, which take the answers that follow
//! it. Answers are inline code; inside a prompt they stand between spaces.

use vstd::prelude::*;
use vstd::string::*;
use crate::cah::cards::{Card, Packs, PlayerKind, White};
use crate::markup::{
    code_ended, code_started, written, DiscordFormatter, DisplayDiscord, FormatterView,
    InlineCodeState,
};
use crate::text::{
    chars_of, lemma_trim_len, text_of, trim_end, trim_end_at, trim_end_of, trim_end_of_at, trim_start,
    trim_start_at,
};

verus! {

/// Whether a character opens a blank.
pub open spec fn is_blank(c: char) -> bool {
    c == '_' || c == '{'
}

/// Where the first blank of a text opens; the length of the text if it has none.
pub open spec fn blank_at(text: Seq<char>) -> nat
    decreases text.len(),
{
    if text.len() == 0 || is_blank(text[0]) {
        0
    } else {
        1 + blank_at(text.drop_first())
    }
}

/// A text from a place on; nothing where the place lies beyond it.
pub open spec fn rest_after(text: Seq<char>, k: int) -> Seq<char> {
    if 0 <= k <= text.len() {
        text.skip(k)
    } else {
        Seq::empty()
    }
}

/// The first blank lies within the text or at its end, and nothing before it
/// opens a blank.
pub proof fn lemma_blank_at(text: Seq<char>)
    ensures
        blank_at(text) <= text.len(),
        blank_at(text) < text.len() ==> is_blank(text[blank_at(text) as int]),
        forall|i: int| 0 <= i < blank_at(text) ==> !is_blank(text[i]),
    decreases text.len(),
{
    if text.len() > 0 && !is_blank(text[0]) {
        lemma_blank_at(text.drop_first());
        assert forall|i: int| 0 <= i < blank_at(text) implies !is_blank(text[i]) by {
            if i > 0 {
                assert(text.drop_first()[i - 1] == text[i]);
            }
        }
    }
}

/// The shorter of what a card left of the answers and what it was given. A
/// card never leaves more than it was given, so this is always the first.
pub open spec fn left_of(left: Seq<Option<White>>, given: Seq<Option<White>>) -> Seq<Option<White>> {
    if left.len() <= given.len() {
        left
    } else {
        given
    }
}

/// What comes before something that is set into a card: a space in a prompt;
/// in an answer the end of the code that the answer is written as.
pub open spec fn before_inner(black: bool, f: FormatterView) -> FormatterView {
    if black {
        written(f, " "@)
    } else {
        code_ended(f)
    }
}

/// What comes after something that is set into a card.
pub open spec fn after_inner(black: bool, f: FormatterView) -> FormatterView {
    if black {
        written(f, " "@)
    } else {
        code_started(f)
    }
}

/// A card written with answers: the formatter after it, and the answers that
/// are left.
pub open spec fn show_card(
    packs: Packs,
    black: bool,
    pack: u32,
    card: u32,
    player: PlayerKind,
    answers: Seq<Option<White>>,
    f: FormatterView,
) -> (FormatterView, Seq<Option<White>>)
    decreases answers.len(), 2nat, 0nat,
{
    let data = packs.at(black, pack, card);
    if black {
        let (f1, left) = fill_blanks(packs, true, player, data.words(), answers, f);
        add_spares(packs, data.spare_blanks(), left_of(left, answers), f1)
    } else {
        let (f1, left) = fill_blanks(
            packs,
            false,
            player,
            trim_end_of(data.words(), '.'),
            answers,
            code_started(f),
        );
        (code_ended(f1), left)
    }
}

/// The text of a card written with answers. Up to each blank the text is
/// written without the white space around the blank. An underscore takes the
/// next answer; where that place is open or no answer is left, the underscore
/// stays. A pair of braces takes the name of the player.
pub open spec fn fill_blanks(
    packs: Packs,
    black: bool,
    player: PlayerKind,
    prompt: Seq<char>,
    answers: Seq<Option<White>>,
    f: FormatterView,
) -> (FormatterView, Seq<Option<White>>)
    decreases answers.len(), 1nat, prompt.len(),
{
    let pos = blank_at(prompt) as int;
    if pos >= prompt.len() {
        (written(f, prompt), answers)
    } else {
        let underscore = prompt[pos] == '_';
        let size: int = if underscore {
            1
        } else {
            2
        };
        let after = trim_start(rest_after(prompt, pos + size));
        let f1 = written(f, trim_end(prompt.take(pos)));
        proof {
            lemma_trim_len(rest_after(prompt, pos + size), ' ');
        }
        if !underscore {
            fill_blanks(
                packs,
                black,
                player,
                after,
                answers,
                after_inner(black, player.shown(before_inner(black, f1))),
            )
        } else if answers.len() == 0 {
            fill_blanks(packs, black, player, after, answers, written(f1, "_"@))
        } else {
            match answers[0] {
                Some(c) => {
                    let (f2, left) = show_card(
                        packs,
                        false,
                        c.pack,
                        c.card,
                        c.player,
                        answers.drop_first(),
                        before_inner(black, f1),
                    );
                    fill_blanks(
                        packs,
                        black,
                        player,
                        after,
                        left_of(left, answers.drop_first()),
                        after_inner(black, f2),
                    )
                },
                None => fill_blanks(
                    packs,
                    black,
                    player,
                    after,
                    answers.drop_first(),
                    written(f1, "_"@),
                ),
            }
        }
    }
}

/// The answers that a prompt takes beyond the blanks in its text: each is
/// written after a space. An open place uses up one of them and writes nothing.
pub open spec fn add_spares(
    packs: Packs,
    spares: nat,
    answers: Seq<Option<White>>,
    f: FormatterView,
) -> (FormatterView, Seq<Option<White>>)
    decreases answers.len(), 1nat, spares,
{
    if spares == 0 || answers.len() == 0 {
        (f, answers)
    } else {
        match answers[0] {
            Some(c) => {
                let (f2, left) = show_card(
                    packs,
                    false,
                    c.pack,
                    c.card,
                    c.player,
                    answers.drop_first(),
                    written(f, " "@),
                );
                add_spares(packs, (spares - 1) as nat, left_of(left, answers.drop_first()), f2)
            },
            None => add_spares(packs, (spares - 1) as nat, answers.drop_first(), f),
        }
    }
}

/// A card leaves no more answers than it was given: what is taken for the
/// shorter of the two in the three definitions above is always what was left.
pub proof fn lemma_show_card_leaves(
    packs: Packs,
    black: bool,
    pack: u32,
    card: u32,
    player: PlayerKind,
    answers: Seq<Option<White>>,
    f: FormatterView,
)
    ensures
        show_card(packs, black, pack, card, player, answers, f).1.len() <= answers.len(),
    decreases answers.len(), 2nat, 0nat,
{
    let data = packs.at(black, pack, card);
    if black {
        let (f1, left) = fill_blanks(packs, true, player, data.words(), answers, f);
        lemma_fill_blanks_leaves(packs, true, player, data.words(), answers, f);
        lemma_add_spares_leaves(packs, data.spare_blanks(), left_of(left, answers), f1);
    } else {
        lemma_fill_blanks_leaves(
            packs,
            false,
            player,
            trim_end_of(data.words(), '.'),
            answers,
            code_started(f),
        );
    }
}

/// The text of a card leaves no more answers than it was given.
pub proof fn lemma_fill_blanks_leaves(
    packs: Packs,
    black: bool,
    player: PlayerKind,
    prompt: Seq<char>,
    answers: Seq<Option<White>>,
    f: FormatterView,
)
    ensures
        fill_blanks(packs, black, player, prompt, answers, f).1.len() <= answers.len(),
    decreases answers.len(), 1nat, prompt.len(),
{
    let pos = blank_at(prompt) as int;
    if pos < prompt.len() {
        let underscore = prompt[pos] == '_';
        let size: int = if underscore {
            1
        } else {
            2
        };
        let after = trim_start(rest_after(prompt, pos + size));
        let f1 = written(f, trim_end(prompt.take(pos)));
        lemma_trim_len(rest_after(prompt, pos + size), ' ');
        if !underscore {
            lemma_fill_blanks_leaves(
                packs,
                black,
                player,
                after,
                answers,
                after_inner(black, player.shown(before_inner(black, f1))),
            );
        } else if answers.len() == 0 {
            lemma_fill_blanks_leaves(packs, black, player, after, answers, written(f1, "_"@));
        } else {
            match answers[0] {
                Some(c) => {
                    let (f2, left) = show_card(
                        packs,
                        false,
                        c.pack,
                        c.card,
                        c.player,
                        answers.drop_first(),
                        before_inner(black, f1),
                    );
                    lemma_show_card_leaves(
                        packs,
                        false,
                        c.pack,
                        c.card,
                        c.player,
                        answers.drop_first(),
                        before_inner(black, f1),
                    );
                    lemma_fill_blanks_leaves(
                        packs,
                        black,
                        player,
                        after,
                        left_of(left, answers.drop_first()),
                        after_inner(black, f2),
                    );
                },
                None => {
                    lemma_fill_blanks_leaves(
                        packs,
                        black,
                        player,
                        after,
                        answers.drop_first(),
                        written(f1, "_"@),
                    );
                },
            }
        }
    }
}

/// The answers beyond the blanks leave no more answers than were given.
pub proof fn lemma_add_spares_leaves(
    packs: Packs,
    spares: nat,
    answers: Seq<Option<White>>,
    f: FormatterView,
)
    ensures
        add_spares(packs, spares, answers, f).1.len() <= answers.len(),
    decreases answers.len(), 1nat, spares,
{
    if spares != 0 && answers.len() != 0 {
        match answers[0] {
            Some(c) => {
                let (f2, left) = show_card(
                    packs,
                    false,
                    c.pack,
                    c.card,
                    c.player,
                    answers.drop_first(),
                    written(f, " "@),
                );
                lemma_show_card_leaves(
                    packs,
                    false,
                    c.pack,
                    c.card,
                    c.player,
                    answers.drop_first(),
                    written(f, " "@),
                );
                lemma_add_spares_leaves(
                    packs,
                    (spares - 1) as nat,
                    left_of(left, answers.drop_first()),
                    f2,
                );
            },
            None => {
                lemma_add_spares_leaves(packs, (spares - 1) as nat, answers.drop_first(), f);
            },
        }
    }
}

/// Whether every answer is a card of the packs that names a player who can
/// be written.
pub open spec fn all_held(packs: Packs, answers: Seq<Option<White>>) -> bool {
    forall|i: int|
        0 <= i < answers.len() ==> (#[trigger] answers[i] matches Some(c) ==> c.held_by(packs)
            && c.player.numbered())
}

/// Finds the first blank of a run of characters.
pub fn find_blank(chars: &Vec<char>, from: usize, to: usize) -> (r: usize)
    requires
        from <= to <= chars.len(),
    ensures
        from <= r <= to,
        r == from + blank_at(chars@.subrange(from as int, to as int)),
{
    let mut r = from;
    while r < to && !(chars[r] == '_' || chars[r] == '{')
        invariant
            from <= r <= to <= chars.len(),
            from + blank_at(chars@.subrange(from as int, to as int)) == r + blank_at(
                chars@.subrange(r as int, to as int),
            ),
        decreases to - r,
    {
        assert(chars@.subrange(r as int, to as int).drop_first() =~= chars@.subrange(
            r + 1,
            to as int,
        ));
        r = r + 1;
    }
    r
}

impl<const BLACK: bool> Card<BLACK> {
    /// Writes this card with the answers from `cursor` on, and moves
    /// `cursor` past the answers that were used.
    pub fn fmt(
        self,
        packs: &Packs,
        white: &Vec<Option<White>>,
        cursor: &mut usize,
        fmt: &mut DiscordFormatter,
    )
        requires
            packs.playable(),
            self.held_by(*packs),
            self.player.numbered(),
            all_held(*packs, white@),
            *old(cursor) <= white.len(),
        ensures
            *old(cursor) <= *final(cursor) <= white.len(),
            (final(fmt)@, white@.skip(*final(cursor) as int)) == show_card(
                *packs,
                BLACK,
                self.pack,
                self.card,
                self.player,
                white@.skip(*old(cursor) as int),
                old(fmt)@,
            ),
        decreases white.len() - *old(cursor),
    {
        let ghost start = *cursor;
        let data = packs.index(BLACK, self.pack, self.card);
        let chars = chars_of(data.text());
        let mut from: usize = 0;
        let mut to: usize = chars.len();
        assert(chars@.subrange(0, to as int) =~= chars@);
        if !BLACK {
            to = trim_end_of_at(&chars, 0, to, '.');
            fmt.start_code();
        }
        let ghost goal = fill_blanks(
            *packs,
            BLACK,
            self.player,
            chars@.subrange(0, to as int),
            white@.skip(start as int),
            fmt@,
        );
        loop
            invariant_except_break
                from <= to <= chars.len(),
                start == *old(cursor),
                start <= *cursor <= white.len(),
                packs.playable(),
                self.player.numbered(),
                all_held(*packs, white@),
                goal == fill_blanks(
                    *packs,
                    BLACK,
                    self.player,
                    chars@.subrange(from as int, to as int),
                    white@.skip(*cursor as int),
                    fmt@,
                ),
            ensures
                start <= *cursor <= white.len(),
                (fmt@, white@.skip(*cursor as int)) == goal,
            decreases to - from,
        {
            let ghost prompt = chars@.subrange(from as int, to as int);
            let ghost answers = white@.skip(*cursor as int);
            let ghost f0 = fmt@;
            let pos = find_blank(&chars, from, to);
            proof {
                lemma_blank_at(prompt);
            }
            if pos >= to {
                let rest = text_of(&chars, from, to);
                fmt.write_str(rest.as_str());
                break ;
            }
            let before_end = trim_end_at(&chars, from, pos);
            let underscore = chars[pos] == '_';
            let size: usize = if underscore {
                1
            } else {
                2
            };
            let skip_to: usize = if size > to - pos {
                to
            } else {
                pos + size
            };
            let after = trim_start_at(&chars, skip_to, to);
            proof {
                assert(prompt[pos - from] == chars@[pos as int]);
                assert(prompt.take(pos - from) =~= chars@.subrange(from as int, pos as int));
                assert(rest_after(prompt, (pos - from) + size) =~= chars@.subrange(
                    skip_to as int,
                    to as int,
                ));
            }
            let before = text_of(&chars, from, before_end);
            fmt.write_str(before.as_str());
            if underscore {
                if *cursor < white.len() {
                    let answer = white[*cursor];
                    proof {
                        assert(answers[0] == white@[*cursor as int]);
                        assert(answers.drop_first() =~= white@.skip(*cursor + 1));
                    }
                    *cursor = *cursor + 1;
                    match answer {
                        Some(c) => {
                            if BLACK {
                                fmt.write_str(" ");
                            } else {
                                fmt.end_code();
                            }
                            c.fmt(packs, white, cursor, fmt);
                            if BLACK {
                                fmt.write_str(" ");
                            } else {
                                fmt.start_code();
                            }
                        },
                        None => {
                            fmt.write_str("_");
                        },
                    }
                } else {
                    assert(answers.len() == 0);
                    fmt.write_str("_");
                }
            } else {
                if BLACK {
                    fmt.write_str(" ");
                } else {
                    fmt.end_code();
                }
                self.player.show(fmt);
                if BLACK {
                    fmt.write_str(" ");
                } else {
                    fmt.start_code();
                }
            }
            from = after;
        }
        if !BLACK {
            fmt.end_code();
        } else {
            let spares = data.extra_blanks();
            let ghost last = add_spares(*packs, spares as nat, white@.skip(*cursor as int), fmt@);
            let mut k: usize = 0;
            while k < spares
                invariant
                    k <= spares,
                    start == *old(cursor),
                    start <= *cursor <= white.len(),
                    packs.playable(),
                    all_held(*packs, white@),
                    last == add_spares(
                        *packs,
                        (spares - k) as nat,
                        white@.skip(*cursor as int),
                        fmt@,
                    ),
                decreases spares - k,
            {
                let ghost answers = white@.skip(*cursor as int);
                if *cursor < white.len() {
                    let answer = white[*cursor];
                    proof {
                        assert(answers[0] == white@[*cursor as int]);
                        assert(answers.drop_first() =~= white@.skip(*cursor + 1));
                    }
                    *cursor = *cursor + 1;
                    match answer {
                        Some(c) => {
                            fmt.write_str(" ");
                            c.fmt(packs, white, cursor, fmt);
                        },
                        None => {},
                    }
                } else {
                    assert(answers.len() == 0);
                }
                k = k + 1;
            }
        }
    }

    /// This card written with answers, as a text.
    pub fn fill(self, packs: &Packs, white: &Vec<Option<White>>) -> (r: String)
        requires
            packs.playable(),
            self.held_by(*packs),
            self.player.numbered(),
            all_held(*packs, white@),
        ensures
            r@ == show_card(
                *packs,
                BLACK,
                self.pack,
                self.card,
                self.player,
                white@,
                FormatterView { text: Seq::empty(), state: InlineCodeState::Outside },
            ).0.text,
    {
        let mut f = DiscordFormatter::new();
        let mut cursor: usize = 0;
        assert(white@.skip(0) =~= white@);
        self.fmt(packs, white, &mut cursor, &mut f);
        f.finish()
    }
}

} // verus!
