//! The tokenizer: a character-by-character state machine that resolves
//! quotes and escapes and cuts the command portion of a line into words.
//!
//! Outside quotes, ASCII whitespace ends the word being built, and an empty
//! word is dropped; a backslash makes the next character an ordinary one; a
//! quote character opens a quote. Inside single quotes every character up to
//! the next single quote is taken as it is. Inside double quotes a backslash
//! keeps its meaning only before a backslash, a dollar sign and a double
//! quote. A quote ends no word: `a'b'c` is the one word `abc`.
//!
//! A word is emitted when whitespace ends it. The command portion that the
//! parser hands over always ends with a newline; of any other input, a word
//! that runs up to the end is not emitted. An input that ends inside a quote
//! has no words at all: it fails.

use vstd::prelude::*;
use crate::text::{is_ascii_blank, char_is_ascii_blank, string_from_chars, views};

verus! {

/// Where the tokenizer stands between two characters.
#[derive(Clone, Copy, Debug, PartialEq, Eq)]
pub enum Mode {
    /// Outside quotes.
    Bare,
    /// Outside quotes, right after a backslash.
    BareEscape,
    /// Inside single quotes.
    Single,
    /// Inside double quotes.
    Double,
    /// Inside double quotes, right after a backslash.
    DoubleEscape,
}

/// The tokenizer's state: its mode, the word being built, and the words
/// already emitted.
pub struct LexState {
    pub mode: Mode,
    pub word: Seq<char>,
    pub tokens: Seq<Seq<char>>,
}

/// The state before the first character.
pub open spec fn initial() -> LexState {
    LexState { mode: Mode::Bare, word: Seq::empty(), tokens: Seq::empty() }
}

/// What a backslash followed by `c` stands for inside double quotes: `c`
/// itself for a backslash, a dollar sign or a double quote, and otherwise the
/// backslash followed by `c`.
pub open spec fn double_quote_escape(c: char) -> Seq<char> {
    if c == '\\' || c == '$' || c == '"' {
        seq![c]
    } else {
        seq!['\\', c]
    }
}

/// One transition of the tokenizer on the character `c`.
pub open spec fn step(st: LexState, c: char) -> LexState {
    match st.mode {
        Mode::Bare => {
            if is_ascii_blank(c) {
                LexState {
                    mode: Mode::Bare,
                    word: Seq::empty(),
                    tokens: if st.word.len() == 0 {
                        st.tokens
                    } else {
                        st.tokens.push(st.word)
                    },
                }
            } else if c == '\'' {
                LexState { mode: Mode::Single, ..st }
            } else if c == '"' {
                LexState { mode: Mode::Double, ..st }
            } else if c == '\\' {
                LexState { mode: Mode::BareEscape, ..st }
            } else {
                LexState { word: st.word.push(c), ..st }
            }
        },
        Mode::BareEscape => LexState { mode: Mode::Bare, word: st.word.push(c), ..st },
        Mode::Single => {
            if c == '\'' {
                LexState { mode: Mode::Bare, ..st }
            } else {
                LexState { word: st.word.push(c), ..st }
            }
        },
        Mode::Double => {
            if c == '"' {
                LexState { mode: Mode::Bare, ..st }
            } else if c == '\\' {
                LexState { mode: Mode::DoubleEscape, ..st }
            } else {
                LexState { word: st.word.push(c), ..st }
            }
        },
        Mode::DoubleEscape => LexState {
            mode: Mode::Double,
            word: st.word + double_quote_escape(c),
            ..st
        },
    }
}

/// The state reached from `start` after reading all of `s`.
pub open spec fn scan(start: LexState, s: Seq<char>) -> LexState
    decreases s.len(),
{
    if s.len() == 0 {
        start
    } else {
        step(scan(start, s.drop_last()), s.last())
    }
}

/// Whether a quote is open in this mode.
pub open spec fn in_quote(mode: Mode) -> bool {
    mode is Single || mode is Double || mode is DoubleEscape
}

/// The words of `s`: `None` where `s` ends inside a quote, otherwise the
/// words that whitespace has ended, in order. A word that no whitespace
/// follows is not among them.
pub open spec fn tokens_of(s: Seq<char>) -> Option<Seq<Seq<char>>> {
    let end = scan(initial(), s);
    if in_quote(end.mode) {
        None
    } else {
        Some(end.tokens)
    }
}

/// Reading one more character is one more transition.
pub proof fn lemma_scan_push(start: LexState, s: Seq<char>, c: char)
    ensures
        scan(start, s.push(c)) == step(scan(start, s), c),
{
    assert(s.push(c).drop_last() =~= s);
}

/// Reading `a` and then `b` is reading `a + b`.
pub proof fn lemma_scan_concat(start: LexState, a: Seq<char>, b: Seq<char>)
    ensures
        scan(start, a + b) == scan(scan(start, a), b),
    decreases b.len(),
{
    if b.len() == 0 {
        assert(a + b =~= a);
    } else {
        lemma_scan_concat(start, a, b.drop_last());
        assert((a + b).drop_last() =~= a + b.drop_last());
    }
}

/// A character that stands for itself outside quotes: no whitespace, no
/// quote, no backslash.
pub open spec fn is_plain(c: char) -> bool {
    !is_ascii_blank(c) && c != '\'' && c != '"' && c != '\\'
}

/// Outside quotes, plain characters join the word one by one.
pub proof fn lemma_plain_run(st: LexState, run: Seq<char>)
    requires
        st.mode is Bare,
        forall|k: int| 0 <= k < run.len() ==> is_plain(run[k]),
    ensures
        scan(st, run) == (LexState { mode: Mode::Bare, word: st.word + run, tokens: st.tokens }),
    decreases run.len(),
{
    if run.len() == 0 {
        assert(st.word + run =~= st.word);
    } else {
        lemma_plain_run(st, run.drop_last());
        assert((st.word + run.drop_last()).push(run.last()) =~= st.word + run);
    }
}

/// Inside single quotes, every character but the quote joins the word as it
/// is.
pub proof fn lemma_single_quote_body(st: LexState, inner: Seq<char>)
    requires
        st.mode is Single,
        forall|k: int| 0 <= k < inner.len() ==> inner[k] != '\'',
    ensures
        scan(st, inner) == (LexState { mode: Mode::Single, word: st.word + inner, tokens: st.tokens }),
    decreases inner.len(),
{
    if inner.len() == 0 {
        assert(st.word + inner =~= st.word);
    } else {
        lemma_single_quote_body(st, inner.drop_last());
        assert((st.word + inner.drop_last()).push(inner.last()) =~= st.word + inner);
    }
}

/// A closed single-quoted span adds the characters between its quotes to the
/// word being built, unchanged, whatever they are, and ends no word: the
/// tokenizer that met the opening quote outside quotes with the word `w` is
/// outside quotes again after the closing quote, with the word `w + inner`
/// and the same emitted words.
pub proof fn law_single_quoted_span(before: Seq<char>, inner: Seq<char>, after: Seq<char>)
    requires
        scan(initial(), before).mode is Bare,
        forall|k: int| 0 <= k < inner.len() ==> inner[k] != '\'',
    ensures
        ({
            let st = scan(initial(), before);
            let closed = LexState { mode: Mode::Bare, word: st.word + inner, tokens: st.tokens };
            &&& scan(initial(), before + seq!['\''] + inner + seq!['\'']) == closed
            &&& scan(initial(), before + seq!['\''] + inner + seq!['\''] + after) == scan(
                closed,
                after,
            )
        }),
{
    let st = scan(initial(), before);
    let opened = LexState { mode: Mode::Single, ..st };
    lemma_scan_push(initial(), before, '\'');
    assert(before.push('\'') =~= before + seq!['\'']);
    lemma_scan_concat(initial(), before + seq!['\''], inner);
    lemma_single_quote_body(opened, inner);
    lemma_scan_push(initial(), before + seq!['\''] + inner, '\'');
    assert((before + seq!['\''] + inner).push('\'') =~= before + seq!['\''] + inner + seq!['\'']);
    lemma_scan_concat(initial(), before + seq!['\''] + inner + seq!['\''], after);
}

/// A word made of plain characters, a single-quoted span and more plain
/// characters, followed by a newline, is one word: `a'b c'd` gives `ab cd`.
pub proof fn law_quoted_span_joins_word(head: Seq<char>, inner: Seq<char>, tail: Seq<char>)
    requires
        forall|k: int| 0 <= k < head.len() ==> is_plain(head[k]),
        forall|k: int| 0 <= k < inner.len() ==> inner[k] != '\'',
        forall|k: int| 0 <= k < tail.len() ==> is_plain(tail[k]),
        head.len() + inner.len() + tail.len() > 0,
    ensures
        tokens_of(head + seq!['\''] + inner + seq!['\''] + tail + seq!['\n']) == Some(
            seq![head + inner + tail],
        ),
{
    lemma_plain_run(initial(), head);
    assert(Seq::<char>::empty() + head =~= head);
    law_single_quoted_span(head, inner, tail);
    let closed = LexState { mode: Mode::Bare, word: head + inner, tokens: Seq::empty() };
    lemma_plain_run(closed, tail);
    let quoted = head + seq!['\''] + inner + seq!['\''] + tail;
    lemma_scan_push(initial(), quoted, '\n');
    assert(quoted.push('\n') =~= quoted + seq!['\n']);
    assert(Seq::<Seq<char>>::empty().push(head + inner + tail) =~= seq![head + inner + tail]);
}

/// Inside single quotes, nothing but a single quote leads out.
pub proof fn lemma_single_quote_stays_open(st: LexState, rest: Seq<char>)
    requires
        st.mode is Single,
        forall|k: int| 0 <= k < rest.len() ==> rest[k] != '\'',
    ensures
        scan(st, rest).mode is Single,
{
    lemma_single_quote_body(st, rest);
}

/// Inside double quotes, nothing but a double quote leads out.
pub proof fn lemma_double_quote_stays_open(st: LexState, rest: Seq<char>)
    requires
        st.mode is Double || st.mode is DoubleEscape,
        forall|k: int| 0 <= k < rest.len() ==> rest[k] != '"',
    ensures
        scan(st, rest).mode is Double || scan(st, rest).mode is DoubleEscape,
    decreases rest.len(),
{
    if rest.len() > 0 {
        lemma_double_quote_stays_open(st, rest.drop_last());
    }
}

/// A single quote that is opened outside quotes and never closed makes the
/// whole input fail.
pub proof fn law_unterminated_single_quote(before: Seq<char>, rest: Seq<char>)
    requires
        scan(initial(), before).mode is Bare,
        forall|k: int| 0 <= k < rest.len() ==> rest[k] != '\'',
    ensures
        tokens_of(before + seq!['\''] + rest) is None,
{
    let st = scan(initial(), before);
    lemma_scan_push(initial(), before, '\'');
    assert(before.push('\'') =~= before + seq!['\'']);
    lemma_scan_concat(initial(), before + seq!['\''], rest);
    lemma_single_quote_stays_open(LexState { mode: Mode::Single, ..st }, rest);
}

/// A double quote that is opened outside quotes and never closed makes the
/// whole input fail.
pub proof fn law_unterminated_double_quote(before: Seq<char>, rest: Seq<char>)
    requires
        scan(initial(), before).mode is Bare,
        forall|k: int| 0 <= k < rest.len() ==> rest[k] != '"',
    ensures
        tokens_of(before + seq!['"'] + rest) is None,
{
    let st = scan(initial(), before);
    lemma_scan_push(initial(), before, '"');
    assert(before.push('"') =~= before + seq!['"']);
    lemma_scan_concat(initial(), before + seq!['"'], rest);
    lemma_double_quote_stays_open(LexState { mode: Mode::Double, ..st }, rest);
}

/// No emitted word is empty: quotes that enclose nothing and runs of
/// whitespace leave no word behind.
pub proof fn law_words_are_not_empty(s: Seq<char>)
    ensures
        forall|i: int|
            0 <= i < scan(initial(), s).tokens.len() ==> scan(initial(), s).tokens[i].len() > 0,
    decreases s.len(),
{
    if s.len() > 0 {
        law_words_are_not_empty(s.drop_last());
    }
}

/// An input fails exactly when it ends inside a quote; otherwise its words
/// are those emitted by the end.
pub proof fn law_failure_is_open_quote(s: Seq<char>)
    ensures
        tokens_of(s) is None <==> in_quote(scan(initial(), s).mode),
        tokens_of(s) matches Some(words) ==> words == scan(initial(), s).tokens,
{
}

/// Inside double quotes, a backslash before a double quote, a backslash or a
/// dollar sign gives that character alone; a backslash before any other
/// character `c` gives the backslash and `c`. Either way the tokenizer stays
/// inside the double quotes.
pub proof fn law_double_quote_escapes(st: LexState, c: char)
    requires
        st.mode is Double,
    ensures
        scan(st, seq!['\\', c]) == (LexState {
            mode: Mode::Double,
            word: if c == '"' || c == '\\' || c == '$' {
                st.word.push(c)
            } else {
                st.word.push('\\').push(c)
            },
            tokens: st.tokens,
        }),
{
    let empty = Seq::<char>::empty();
    lemma_scan_push(st, empty, '\\');
    lemma_scan_push(st, empty.push('\\'), c);
    assert(empty.push('\\').push(c) =~= seq!['\\', c]);
    assert(st.word + seq![c] =~= st.word.push(c));
    assert(st.word + seq!['\\', c] =~= st.word.push('\\').push(c));
}

/// The escape rule of double quotes, at any place of an input: where the
/// tokenizer stands inside double quotes after `before`, it stands inside
/// them after `before`, a backslash and `c` too, and the word has grown by
/// what the escape stands for.
pub proof fn law_double_quote_escape_in_input(before: Seq<char>, c: char)
    requires
        scan(initial(), before).mode is Double,
    ensures
        ({
            let st = scan(initial(), before);
            scan(initial(), before + seq!['\\', c]) == (LexState {
                mode: Mode::Double,
                word: st.word + double_quote_escape(c),
                tokens: st.tokens,
            })
        }),
{
    let st = scan(initial(), before);
    lemma_scan_concat(initial(), before, seq!['\\', c]);
    law_double_quote_escapes(st, c);
    assert(st.word + seq![c] =~= st.word.push(c));
    assert(st.word + seq!['\\', c] =~= st.word.push('\\').push(c));
}

/// The tokenizer's state in executable form.
pub struct Lexer {
    pub mode: Mode,
    pub word: Vec<char>,
    pub tokens: Vec<String>,
}

impl View for Lexer {
    type V = LexState;

    open spec fn view(&self) -> LexState {
        LexState { mode: self.mode, word: self.word@, tokens: views(self.tokens@) }
    }
}

impl Lexer {
    /// A tokenizer that has read nothing.
    pub fn new() -> (lexer: Lexer)
        ensures
            lexer@ == initial(),
    {
        let lexer = Lexer { mode: Mode::Bare, word: Vec::new(), tokens: Vec::new() };
        assert(lexer@.tokens =~= Seq::empty());
        lexer
    }

    /// Reads one character.
    pub fn feed(&mut self, c: char)
        ensures
            final(self)@ == step(old(self)@, c),
    {
        match self.mode {
            Mode::Bare => {
                if char_is_ascii_blank(c) {
                    if self.word.len() != 0 {
                        let word = string_from_chars(&self.word);
                        self.tokens.push(word);
                        self.word.clear();
                        assert(views(self.tokens@) =~= views(old(self).tokens@).push(
                            old(self).word@,
                        ));
                    }
                    assert(self.word@ =~= Seq::empty());
                } else if c == '\'' {
                    self.mode = Mode::Single;
                } else if c == '"' {
                    self.mode = Mode::Double;
                } else if c == '\\' {
                    self.mode = Mode::BareEscape;
                } else {
                    self.word.push(c);
                }
            },
            Mode::BareEscape => {
                self.word.push(c);
                self.mode = Mode::Bare;
            },
            Mode::Single => {
                if c == '\'' {
                    self.mode = Mode::Bare;
                } else {
                    self.word.push(c);
                }
            },
            Mode::Double => {
                if c == '"' {
                    self.mode = Mode::Bare;
                } else if c == '\\' {
                    self.mode = Mode::DoubleEscape;
                } else {
                    self.word.push(c);
                }
            },
            Mode::DoubleEscape => {
                if c == '\\' || c == '$' || c == '"' {
                    self.word.push(c);
                } else {
                    self.word.push('\\');
                    self.word.push(c);
                }
                self.mode = Mode::Double;
                assert(self.word@ =~= old(self).word@ + double_quote_escape(c));
            },
        }
    }
}

/// Cuts a command portion into words, resolving quotes and escapes. Fails
/// where a quote is opened and never closed.
pub fn tokenize(command_portion: &str) -> (words: Option<Vec<String>>)
    ensures
        match words {
            Some(v) => tokens_of(command_portion@) == Some(views(v@)),
            None => tokens_of(command_portion@) is None,
        },
{
    let mut lexer = Lexer::new();
    for c in it: command_portion.chars()
        invariant
            it.seq() == command_portion@,
            lexer@ == scan(initial(), command_portion@.take(it.index() as int)),
    {
        proof {
            let s = command_portion@;
            let i = it.index() as int;
            assert(s.take(i + 1).drop_last() =~= s.take(i));
        }
        lexer.feed(c);
    }
    assert(command_portion@.take(command_portion@.len() as int) =~= command_portion@);
    match lexer.mode {
        Mode::Single | Mode::Double | Mode::DoubleEscape => None,
        _ => Some(lexer.tokens),
    }
}

} // verus!
