//! Discord's message markup: escaping, and a formatter that keeps track of
//! inline code.

use vstd::prelude::*;
use vstd::string::*;
use crate::text::{chars_of, push_char};

verus! {

/// Whether a character means something to the markup and is written with a
/// backslash before it.
pub open spec fn is_markup(c: char) -> bool {
    c == '\\' || c == '_' || c == '*' || c == '|' || c == '~' || c == '`' || c == '[' || c == ']'
        || c == '(' || c == ')' || c == '<' || c == '>'
}

/// One character, escaped.
pub open spec fn escaped_char(c: char) -> Seq<char> {
    if is_markup(c) {
        seq!['\\', c]
    } else {
        seq![c]
    }
}

/// A text with every markup character escaped.
pub open spec fn escaped(text: Seq<char>) -> Seq<char>
    decreases text.len(),
{
    if text.len() == 0 {
        Seq::empty()
    } else {
        escaped(text.drop_last()) + escaped_char(text.last())
    }
}

/// Escaping goes character by character: the escaped text of two texts in a
/// row is the two escaped texts in a row.
pub proof fn lemma_escaped_concat(a: Seq<char>, b: Seq<char>)
    ensures
        escaped(a + b) == escaped(a) + escaped(b),
    decreases b.len(),
{
    if b.len() == 0 {
        assert(a + b =~= a);
        assert(escaped(a) + escaped(b) =~= escaped(a));
    } else {
        assert((a + b).drop_last() =~= a + b.drop_last());
        assert((a + b).last() == b.last());
        lemma_escaped_concat(a, b.drop_last());
        assert(escaped(a + b) =~= escaped(a) + escaped(b));
    }
}

/// The escaped text of a text that is not empty starts with its first
/// character, escaped.
pub proof fn lemma_escaped_first(text: Seq<char>)
    requires
        text.len() > 0,
    ensures
        escaped(text) == escaped_char(text[0]) + escaped(text.drop_first()),
{
    let head = seq![text[0]];
    assert(text =~= head + text.drop_first());
    lemma_escaped_concat(head, text.drop_first());
    reveal_with_fuel(escaped, 2);
    assert(head.drop_last() =~= Seq::<char>::empty());
    assert(escaped(head) =~= escaped_char(text[0]));
}

/// Escaping leaves no text shorter, and a text without markup as it is.
pub proof fn lemma_escaped_len(text: Seq<char>)
    ensures
        text.len() <= escaped(text).len() <= 2 * text.len(),
        (forall|i: int| 0 <= i < text.len() ==> !is_markup(#[trigger] text[i])) ==> escaped(text)
            == text,
    decreases text.len(),
{
    if text.len() > 0 {
        lemma_escaped_len(text.drop_last());
        if forall|i: int| 0 <= i < text.len() ==> !is_markup(#[trigger] text[i]) {
            assert forall|i: int| 0 <= i < text.drop_last().len() implies !is_markup(
                #[trigger] text.drop_last()[i],
            ) by {
                assert(text.drop_last()[i] == text[i]);
            }
            assert(!is_markup(text[text.len() - 1]));
            assert(escaped(text) =~= text);
        }
    }
}

/// Tells whether a character is markup.
pub fn needs_escape(c: char) -> (r: bool)
    ensures
        r == is_markup(c),
{
    c == '\\' || c == '_' || c == '*' || c == '|' || c == '~' || c == '`' || c == '[' || c == ']'
        || c == '(' || c == ')' || c == '<' || c == '>'
}

/// The characters of a text, escaped, one at a time.
pub struct EscapedChars {
    source: Vec<char>,
    position: usize,
    held: Option<char>,
}

impl View for EscapedChars {
    type V = Seq<char>;

    /// The characters that are still to come.
    closed spec fn view(&self) -> Seq<char> {
        (match self.held {
            Some(c) => seq![c],
            None => Seq::empty(),
        }) + escaped(self.source@.skip(self.position as int))
    }
}

impl EscapedChars {
    #[verifier::type_invariant]
    spec fn in_bounds(self) -> bool {
        self.position <= self.source.len()
    }

    /// The escaped characters of a text.
    pub fn new(text: &str) -> (r: Self)
        ensures
            r@ == escaped(text@),
    {
        let source = chars_of(text);
        assert(source@.skip(0) =~= source@);
        assert(Seq::<char>::empty() + escaped(source@) =~= escaped(source@));
        EscapedChars { source, position: 0, held: None }
    }

    /// The next character, if one is left.
    pub fn next(&mut self) -> (r: Option<char>)
        ensures
            old(self)@.len() == 0 ==> r is None && final(self)@ == old(self)@,
            old(self)@.len() > 0 ==> r == Some(old(self)@[0]) && final(self)@ == old(self)@.drop_first(),
    {
        proof {
            use_type_invariant(&*self);
        }
        let ghost rest = self.source@.skip(self.position as int);
        match self.held {
            Some(c) => {
                self.held = None;
                assert(self@ =~= old(self)@.drop_first());
                Some(c)
            },
            None => {
                if self.position < self.source.len() {
                    let c = self.source[self.position];
                    proof {
                        lemma_escaped_first(rest);
                        assert(rest.drop_first() =~= self.source@.skip(self.position + 1));
                    }
                    self.position = self.position + 1;
                    if needs_escape(c) {
                        self.held = Some(c);
                        assert(self@ =~= old(self)@.drop_first());
                        Some('\\')
                    } else {
                        assert(self@ =~= old(self)@.drop_first());
                        Some(c)
                    }
                } else {
                    assert(rest.len() == 0);
                    None
                }
            },
        }
    }
}

/// A text with every markup character escaped.
pub fn escape_string(s: &str) -> (r: String)
    ensures
        r@ == escaped(s@),
{
    let mut chars = EscapedChars::new(s);
    let mut r = String::new();
    assert(r@ + chars@ =~= escaped(s@));
    loop
        invariant_except_break
            r@ + chars@ == escaped(s@),
        ensures
            r@ == escaped(s@),
        decreases chars@.len(),
    {
        match chars.next() {
            Some(c) => {
                push_char(&mut r, c);
                assert(r@ + chars@ =~= escaped(s@));
            },
            None => {
                assert(r@ + chars@ =~= r@);
                break ;
            },
        }
    }
    r
}

/// Where a formatter stands with respect to inline code.
#[derive(Clone, Copy, Debug, PartialEq, Eq, Structural)]
pub enum InlineCodeState {
    /// Outside of code.
    Outside,
    /// Code was asked for and nothing of it is written yet.
    Starting,
    /// Inside of code.
    Inside,
    /// Just past the end of code.
    Ended,
}

/// A formatter as a mathematical value: what was written, and the state.
pub struct FormatterView {
    pub text: Seq<char>,
    pub state: InlineCodeState,
}

/// A formatter after inline code was asked for. Code that follows code is
/// parted from it by a space.
pub open spec fn code_started(f: FormatterView) -> FormatterView {
    match f.state {
        InlineCodeState::Outside => FormatterView { state: InlineCodeState::Starting, ..f },
        InlineCodeState::Starting => f,
        InlineCodeState::Inside => f,
        InlineCodeState::Ended => FormatterView {
            text: f.text + " "@,
            state: InlineCodeState::Starting,
        },
    }
}

/// A formatter after inline code was ended. Code of which nothing was written
/// leaves no trace.
pub open spec fn code_ended(f: FormatterView) -> FormatterView {
    match f.state {
        InlineCodeState::Outside => f,
        InlineCodeState::Starting => FormatterView { state: InlineCodeState::Outside, ..f },
        InlineCodeState::Inside => FormatterView {
            text: f.text + "``"@,
            state: InlineCodeState::Ended,
        },
        InlineCodeState::Ended => f,
    }
}

/// A formatter after a text was written: escaped outside of code, as it is
/// inside. An empty text changes nothing.
pub open spec fn written(f: FormatterView, s: Seq<char>) -> FormatterView {
    match f.state {
        InlineCodeState::Outside => FormatterView { text: f.text + escaped(s), ..f },
        InlineCodeState::Starting => if s.len() > 0 {
            FormatterView { text: f.text + "``"@ + s, state: InlineCodeState::Inside }
        } else {
            f
        },
        InlineCodeState::Inside => FormatterView { text: f.text + s, ..f },
        InlineCodeState::Ended => if s.len() > 0 {
            FormatterView { text: f.text + escaped(s), state: InlineCodeState::Outside }
        } else {
            f
        },
    }
}

/// A formatter after a text was written past the markup rules.
pub open spec fn written_raw(f: FormatterView, s: Seq<char>) -> FormatterView {
    FormatterView { text: f.text + s, ..f }
}

/// Writes message text, escaping what is markup and setting inline code
/// between double backticks.
pub struct DiscordFormatter {
    text: String,
    state: InlineCodeState,
}

impl View for DiscordFormatter {
    type V = FormatterView;

    closed spec fn view(&self) -> FormatterView {
        FormatterView { text: self.text@, state: self.state }
    }
}

impl DiscordFormatter {
    /// A formatter that has written nothing.
    pub fn new() -> (r: Self)
        ensures
            r@ == (FormatterView { text: Seq::empty(), state: InlineCodeState::Outside }),
    {
        DiscordFormatter { text: String::new(), state: InlineCodeState::Outside }
    }

    /// Asks for inline code.
    pub fn start_code(&mut self)
        ensures
            final(self)@ == code_started(old(self)@),
    {
        match self.state {
            InlineCodeState::Outside => {
                self.state = InlineCodeState::Starting;
            },
            InlineCodeState::Starting => {},
            InlineCodeState::Inside => {},
            InlineCodeState::Ended => {
                self.text.append(" ");
                self.state = InlineCodeState::Starting;
            },
        }
    }

    /// Ends inline code.
    pub fn end_code(&mut self)
        ensures
            final(self)@ == code_ended(old(self)@),
    {
        match self.state {
            InlineCodeState::Outside => {},
            InlineCodeState::Starting => {
                self.state = InlineCodeState::Outside;
            },
            InlineCodeState::Inside => {
                self.text.append("``");
                self.state = InlineCodeState::Ended;
            },
            InlineCodeState::Ended => {},
        }
    }

    /// Writes a text past the markup rules: nothing is escaped and the state
    /// stays.
    pub fn unescaped(&mut self, s: &str)
        ensures
            final(self)@ == written_raw(old(self)@, s@),
    {
        self.text.append(s);
    }

    /// Writes a text.
    pub fn write_str(&mut self, s: &str)
        ensures
            final(self)@ == written(old(self)@, s@),
    {
        match self.state {
            InlineCodeState::Outside => {
                let e = escape_string(s);
                self.text.append(e.as_str());
            },
            InlineCodeState::Starting => {
                if s.unicode_len() > 0 {
                    self.text.append("``");
                    self.text.append(s);
                    self.state = InlineCodeState::Inside;
                }
            },
            InlineCodeState::Inside => {
                self.text.append(s);
            },
            InlineCodeState::Ended => {
                if s.unicode_len() > 0 {
                    let e = escape_string(s);
                    self.text.append(e.as_str());
                    self.state = InlineCodeState::Outside;
                }
            },
        }
    }

    /// Where the formatter stands.
    pub fn state(&self) -> (r: InlineCodeState)
        ensures
            r == self@.state,
    {
        self.state
    }

    /// What was written.
    pub fn finish(self) -> (r: String)
        ensures
            r@ == self@.text,
    {
        self.text
    }
}

/// What can be shown in a message.
pub trait DisplayDiscord {
    /// Whether this value can be written.
    spec fn showable(&self) -> bool;

    /// The formatter after this value was written to it.
    spec fn shown(&self, f: FormatterView) -> FormatterView;

    /// Writes this value to a formatter.
    fn fmt(&self, f: &mut DiscordFormatter)
        requires
            self.showable(),
        ensures
            final(f)@ == self.shown(old(f)@),
    ;
}

} // verus!
