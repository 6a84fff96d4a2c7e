use crate::text::{
    char_is_alphanumeric, char_is_numeric, char_is_whitespace, is_alphanumeric, is_numeric,
    is_whitespace, str_eq,
};
use std::str::Chars;
use vstd::prelude::*;
use vstd::std_specs::convert::FromSpecImpl;
use vstd::std_specs::iter::IteratorSpec;
use vstd::string::StrSliceExecFns;

verus! {

/// Mathematical model of a [`Token`]: the text of a literal is a sequence of characters.
pub enum TokenView {
    COLON,
    SEMICOLON,
    COMMA,
    EQUAL,
    EQUALEQUAL,
    LEFTSQUARE,
    RIGHTSQUARE,
    LEFTBRACE,
    RIGHTBRACE,
    LEFTPARENTHESIS,
    RIGHTPARENTHESIS,
    AND,
    OR,
    LESSTHAN,
    LESSOREQUAL,
    GREATERTHAN,
    GREATEROREQUAL,
    NOT,
    NOTEQUAL,
    PLUS,
    PLUSPLUS,
    MINUS,
    MINUSMINUS,
    TIMES,
    DIVIDE,
    DOT,
    ARRAY,
    BOOLEAN,
    BREAK,
    CHAR,
    CONTINUE,
    DO,
    FUNCTION,
    IF,
    ELSE,
    INTEGER,
    OF,
    STRING,
    STRUCT,
    TRUE,
    FALSE,
    TYPE,
    VAR,
    WHILE,
    DOLLAR,
    ID(Seq<char>),
    CHARACTER(char),
    STRINGVAL(Seq<char>),
    NUMERAL(Seq<char>),
    UNKNOWN(Seq<char>),
}

/// A token of the language.
#[derive(Debug, Clone, Copy, PartialEq)]
pub enum Token<'a> {
    // Symbols
    COLON,
    SEMICOLON,
    COMMA,
    EQUAL,
    EQUALEQUAL,
    LEFTSQUARE,
    RIGHTSQUARE,
    LEFTBRACE,
    RIGHTBRACE,
    LEFTPARENTHESIS,
    RIGHTPARENTHESIS,
    AND,
    OR,
    LESSTHAN,
    LESSOREQUAL,
    GREATERTHAN,
    GREATEROREQUAL,
    NOT,
    NOTEQUAL,
    PLUS,
    PLUSPLUS,
    MINUS,
    MINUSMINUS,
    TIMES,
    DIVIDE,
    DOT,
    // Reserved words
    ARRAY,
    BOOLEAN,
    BREAK,
    CHAR,
    CONTINUE,
    DO,
    FUNCTION,
    IF,
    ELSE,
    INTEGER,
    OF,
    STRING,
    STRUCT,
    TRUE,
    FALSE,
    TYPE,
    VAR,
    WHILE,
    /// The end of the program.
    DOLLAR,
    // Literals and identifiers
    ID(&'a str),
    CHARACTER(char),
    STRINGVAL(&'a str),
    NUMERAL(&'a str),
    /// Text that begins no token.
    UNKNOWN(&'a str),
}

impl<'a> View for Token<'a> {
    type V = TokenView;

    open spec fn view(&self) -> TokenView {
        match *self {
            Token::COLON => TokenView::COLON,
            Token::SEMICOLON => TokenView::SEMICOLON,
            Token::COMMA => TokenView::COMMA,
            Token::EQUAL => TokenView::EQUAL,
            Token::EQUALEQUAL => TokenView::EQUALEQUAL,
            Token::LEFTSQUARE => TokenView::LEFTSQUARE,
            Token::RIGHTSQUARE => TokenView::RIGHTSQUARE,
            Token::LEFTBRACE => TokenView::LEFTBRACE,
            Token::RIGHTBRACE => TokenView::RIGHTBRACE,
            Token::LEFTPARENTHESIS => TokenView::LEFTPARENTHESIS,
            Token::RIGHTPARENTHESIS => TokenView::RIGHTPARENTHESIS,
            Token::AND => TokenView::AND,
            Token::OR => TokenView::OR,
            Token::LESSTHAN => TokenView::LESSTHAN,
            Token::LESSOREQUAL => TokenView::LESSOREQUAL,
            Token::GREATERTHAN => TokenView::GREATERTHAN,
            Token::GREATEROREQUAL => TokenView::GREATEROREQUAL,
            Token::NOT => TokenView::NOT,
            Token::NOTEQUAL => TokenView::NOTEQUAL,
            Token::PLUS => TokenView::PLUS,
            Token::PLUSPLUS => TokenView::PLUSPLUS,
            Token::MINUS => TokenView::MINUS,
            Token::MINUSMINUS => TokenView::MINUSMINUS,
            Token::TIMES => TokenView::TIMES,
            Token::DIVIDE => TokenView::DIVIDE,
            Token::DOT => TokenView::DOT,
            Token::ARRAY => TokenView::ARRAY,
            Token::BOOLEAN => TokenView::BOOLEAN,
            Token::BREAK => TokenView::BREAK,
            Token::CHAR => TokenView::CHAR,
            Token::CONTINUE => TokenView::CONTINUE,
            Token::DO => TokenView::DO,
            Token::FUNCTION => TokenView::FUNCTION,
            Token::IF => TokenView::IF,
            Token::ELSE => TokenView::ELSE,
            Token::INTEGER => TokenView::INTEGER,
            Token::OF => TokenView::OF,
            Token::STRING => TokenView::STRING,
            Token::STRUCT => TokenView::STRUCT,
            Token::TRUE => TokenView::TRUE,
            Token::FALSE => TokenView::FALSE,
            Token::TYPE => TokenView::TYPE,
            Token::VAR => TokenView::VAR,
            Token::WHILE => TokenView::WHILE,
            Token::DOLLAR => TokenView::DOLLAR,
            Token::ID(s) => TokenView::ID(s@),
            Token::CHARACTER(c) => TokenView::CHARACTER(c),
            Token::STRINGVAL(s) => TokenView::STRINGVAL(s@),
            Token::NUMERAL(s) => TokenView::NUMERAL(s@),
            Token::UNKNOWN(s) => TokenView::UNKNOWN(s@),
        }
    }
}

/// The id of a token that begins with text that the language does not know.
pub const UNKNOWN_ID: usize = 1000;

impl TokenView {
    /// The column of the action table that belongs to this token. All
    /// identifiers share one, and so do all literals of one kind.
    pub open spec fn id(self) -> nat {
        match self {
            TokenView::ARRAY => 30,
            TokenView::BOOLEAN => 31,
            TokenView::BREAK => 32,
            TokenView::CHAR => 33,
            TokenView::CONTINUE => 34,
            TokenView::DO => 35,
            TokenView::ELSE => 36,
            TokenView::FALSE => 37,
            TokenView::FUNCTION => 38,
            TokenView::IF => 39,
            TokenView::INTEGER => 40,
            TokenView::OF => 41,
            TokenView::STRING => 42,
            TokenView::STRUCT => 43,
            TokenView::TRUE => 44,
            TokenView::TYPE => 45,
            TokenView::VAR => 46,
            TokenView::WHILE => 47,
            TokenView::COLON => 48,
            TokenView::SEMICOLON => 49,
            TokenView::COMMA => 50,
            TokenView::EQUAL => 51,
            TokenView::LEFTSQUARE => 52,
            TokenView::RIGHTSQUARE => 53,
            TokenView::LEFTBRACE => 54,
            TokenView::RIGHTBRACE => 55,
            TokenView::LEFTPARENTHESIS => 56,
            TokenView::RIGHTPARENTHESIS => 57,
            TokenView::AND => 58,
            TokenView::OR => 59,
            TokenView::LESSTHAN => 60,
            TokenView::GREATERTHAN => 61,
            TokenView::LESSOREQUAL => 62,
            TokenView::GREATEROREQUAL => 63,
            TokenView::NOTEQUAL => 64,
            TokenView::EQUALEQUAL => 65,
            TokenView::PLUS => 66,
            TokenView::PLUSPLUS => 67,
            TokenView::MINUS => 68,
            TokenView::MINUSMINUS => 69,
            TokenView::TIMES => 70,
            TokenView::DIVIDE => 71,
            TokenView::DOT => 72,
            TokenView::NOT => 73,
            TokenView::CHARACTER(_) => 74,
            TokenView::NUMERAL(_) => 75,
            TokenView::STRINGVAL(_) => 76,
            TokenView::ID(_) => 77,
            TokenView::DOLLAR => 78,
            TokenView::UNKNOWN(_) => 1000,
        }
    }

    /// The text that the token carries, where it is an identifier or a literal.
    pub open spec fn lexeme(self) -> Option<Seq<char>> {
        match self {
            TokenView::ID(s) => Some(s),
            TokenView::CHARACTER(c) => Some(seq![c]),
            TokenView::STRINGVAL(s) => Some(s),
            TokenView::NUMERAL(s) => Some(s),
            _ => None,
        }
    }
}

impl<'a> From<Token<'a>> for usize {
    fn from(t: Token<'a>) -> (r: usize) {
        match t {
            Token::ARRAY => 30,
            Token::BOOLEAN => 31,
            Token::BREAK => 32,
            Token::CHAR => 33,
            Token::CONTINUE => 34,
            Token::DO => 35,
            Token::ELSE => 36,
            Token::FALSE => 37,
            Token::FUNCTION => 38,
            Token::IF => 39,
            Token::INTEGER => 40,
            Token::OF => 41,
            Token::STRING => 42,
            Token::STRUCT => 43,
            Token::TRUE => 44,
            Token::TYPE => 45,
            Token::VAR => 46,
            Token::WHILE => 47,
            Token::COLON => 48,
            Token::SEMICOLON => 49,
            Token::COMMA => 50,
            Token::EQUAL => 51,
            Token::LEFTSQUARE => 52,
            Token::RIGHTSQUARE => 53,
            Token::LEFTBRACE => 54,
            Token::RIGHTBRACE => 55,
            Token::LEFTPARENTHESIS => 56,
            Token::RIGHTPARENTHESIS => 57,
            Token::AND => 58,
            Token::OR => 59,
            Token::LESSTHAN => 60,
            Token::GREATERTHAN => 61,
            Token::LESSOREQUAL => 62,
            Token::GREATEROREQUAL => 63,
            Token::NOTEQUAL => 64,
            Token::EQUALEQUAL => 65,
            Token::PLUS => 66,
            Token::PLUSPLUS => 67,
            Token::MINUS => 68,
            Token::MINUSMINUS => 69,
            Token::TIMES => 70,
            Token::DIVIDE => 71,
            Token::DOT => 72,
            Token::NOT => 73,
            Token::CHARACTER(_) => 74,
            Token::NUMERAL(_) => 75,
            Token::STRINGVAL(_) => 76,
            Token::ID(_) => 77,
            Token::DOLLAR => 78,
            Token::UNKNOWN(_) => 1000,
        }
    }
}

impl<'a> FromSpecImpl<Token<'a>> for usize {
    open spec fn obeys_from_spec() -> bool {
        true
    }

    open spec fn from_spec(t: Token<'a>) -> usize {
        t@.id() as usize
    }
}
/// The classes of characters that make up runs in the text.
#[derive(Debug, Clone, Copy, PartialEq, Eq, Structural)]
pub enum CharClass {
    Space,
    Alphanumeric,
    Numeric,
}

impl CharClass {
    pub open spec fn has(self, c: char) -> bool {
        match self {
            CharClass::Space => is_whitespace(c),
            CharClass::Alphanumeric => is_alphanumeric(c),
            CharClass::Numeric => is_numeric(c),
        }
    }

    fn holds(self, c: char) -> (r: bool)
        ensures
            r == self.has(c),
    {
        match self {
            CharClass::Space => char_is_whitespace(c),
            CharClass::Alphanumeric => char_is_alphanumeric(c),
            CharClass::Numeric => char_is_numeric(c),
        }
    }
}

/// The end of the longest run of characters of `class` that starts at `pos`.
pub open spec fn run_end(s: Seq<char>, pos: int, class: CharClass) -> int
    decreases s.len() - pos,
{
    if 0 <= pos < s.len() && class.has(s[pos]) {
        run_end(s, pos + 1, class)
    } else {
        pos
    }
}

/// The number of line feeds from `from` up to `to`.
pub open spec fn line_feeds(s: Seq<char>, from: int, to: int) -> nat
    decreases to - from,
{
    if to <= from || to > s.len() || from < 0 {
        0
    } else {
        line_feeds(s, from, to - 1) + if s[to - 1] == '\n' {
            1nat
        } else {
            0nat
        }
    }
}

/// The position of the last double quote from `from` up to `to`, or -1
/// where there is none.
pub open spec fn last_quote(s: Seq<char>, from: int, to: int) -> int
    decreases to - from,
{
    if to <= from || to > s.len() || from < 0 {
        -1
    } else if s[to - 1] == '"' {
        to - 1
    } else {
        last_quote(s, from, to - 1)
    }
}

/// Whether a character may begin an identifier or a reserved word.
pub open spec fn begins_word(c: char) -> bool {
    ('a' <= c && c <= 'z') || ('A' <= c && c <= 'Z') || c == '_'
}

/// Whether a character may begin a numeral.
pub open spec fn begins_numeral(c: char) -> bool {
    '0' <= c && c <= '9'
}

/// The token that a word is: a reserved word, or else an identifier.
pub open spec fn word_token(word: Seq<char>) -> TokenView {
    if word == "array"@ {
        TokenView::ARRAY
    } else if word == "boolean"@ {
        TokenView::BOOLEAN
    } else if word == "break"@ {
        TokenView::BREAK
    } else if word == "char"@ {
        TokenView::CHAR
    } else if word == "continue"@ {
        TokenView::CONTINUE
    } else if word == "do"@ {
        TokenView::DO
    } else if word == "function"@ {
        TokenView::FUNCTION
    } else if word == "if"@ {
        TokenView::IF
    } else if word == "else"@ {
        TokenView::ELSE
    } else if word == "integer"@ {
        TokenView::INTEGER
    } else if word == "of"@ {
        TokenView::OF
    } else if word == "string"@ {
        TokenView::STRING
    } else if word == "struct"@ {
        TokenView::STRUCT
    } else if word == "true"@ {
        TokenView::TRUE
    } else if word == "false"@ {
        TokenView::FALSE
    } else if word == "type"@ {
        TokenView::TYPE
    } else if word == "var"@ {
        TokenView::VAR
    } else if word == "while"@ {
        TokenView::WHILE
    } else {
        TokenView::ID(word)
    }
}

/// One step of the scanner: the token that it finds, the position at
/// which it goes on, and the line feeds that it has passed and counted.
pub struct Scan {
    pub token: TokenView,
    pub end: int,
    pub feeds: nat,
}

/// A token that is found at `start` and ends before `end`.
pub open spec fn found(s: Seq<char>, pos: int, start: int, token: TokenView, end: int) -> Scan {
    Scan {
        token,
        end: if end <= s.len() {
            end
        } else {
            s.len() as int
        },
        feeds: line_feeds(s, pos, start),
    }
}

/// Whether the character at `at` is `c`.
pub open spec fn is_at(s: Seq<char>, at: int, c: char) -> bool {
    0 <= at < s.len() && s[at] == c
}

/// The token that begins at the first character from `pos` on that is no
/// white space.
///
/// A symbol is the longest that fits. `&` and `|` stand only doubled;
/// alone, each is unknown text and takes the character behind it along. A
/// word is a run of letters and numbers. A character literal is one
/// character between single quotes. A string literal begins at a double
/// quote, ends at the last double quote of the text, and uses the text up.
/// A numeral is a run of numbers, with a fraction if a dot follows.
/// Anything else is unknown text, at which the scanner stays.
pub open spec fn scan(s: Seq<char>, pos: int) -> Scan {
    let start = run_end(s, pos, CharClass::Space);
    if start < 0 || start >= s.len() {
        found(s, pos, start, TokenView::DOLLAR, start)
    } else {
        let c = s[start];
        if c == ':' {
            found(s, pos, start, TokenView::COLON, start + 1)
        } else if c == ';' {
            found(s, pos, start, TokenView::SEMICOLON, start + 1)
        } else if c == ',' {
            found(s, pos, start, TokenView::COMMA, start + 1)
        } else if c == '=' {
            if is_at(s, start + 1, '=') {
                found(s, pos, start, TokenView::EQUALEQUAL, start + 2)
            } else {
                found(s, pos, start, TokenView::EQUAL, start + 1)
            }
        } else if c == '[' {
            found(s, pos, start, TokenView::LEFTSQUARE, start + 1)
        } else if c == ']' {
            found(s, pos, start, TokenView::RIGHTSQUARE, start + 1)
        } else if c == '{' {
            found(s, pos, start, TokenView::LEFTBRACE, start + 1)
        } else if c == '}' {
            found(s, pos, start, TokenView::RIGHTBRACE, start + 1)
        } else if c == '(' {
            found(s, pos, start, TokenView::LEFTPARENTHESIS, start + 1)
        } else if c == ')' {
            found(s, pos, start, TokenView::RIGHTPARENTHESIS, start + 1)
        } else if c == '&' {
            if is_at(s, start + 1, '&') {
                found(s, pos, start, TokenView::AND, start + 2)
            } else {
                found(s, pos, start, TokenView::UNKNOWN("&"@), start + 2)
            }
        } else if c == '|' {
            if is_at(s, start + 1, '|') {
                found(s, pos, start, TokenView::OR, start + 2)
            } else {
                found(s, pos, start, TokenView::UNKNOWN("|"@), start + 2)
            }
        } else if c == '<' {
            if is_at(s, start + 1, '=') {
                found(s, pos, start, TokenView::LESSOREQUAL, start + 2)
            } else {
                found(s, pos, start, TokenView::LESSTHAN, start + 1)
            }
        } else if c == '>' {
            if is_at(s, start + 1, '=') {
                found(s, pos, start, TokenView::GREATEROREQUAL, start + 2)
            } else {
                found(s, pos, start, TokenView::GREATERTHAN, start + 1)
            }
        } else if c == '!' {
            if is_at(s, start + 1, '=') {
                found(s, pos, start, TokenView::NOTEQUAL, start + 2)
            } else {
                found(s, pos, start, TokenView::NOT, start + 1)
            }
        } else if c == '+' {
            if is_at(s, start + 1, '+') {
                found(s, pos, start, TokenView::PLUSPLUS, start + 2)
            } else {
                found(s, pos, start, TokenView::PLUS, start + 1)
            }
        } else if c == '-' {
            if is_at(s, start + 1, '-') {
                found(s, pos, start, TokenView::MINUSMINUS, start + 2)
            } else {
                found(s, pos, start, TokenView::MINUS, start + 1)
            }
        } else if c == '*' {
            found(s, pos, start, TokenView::TIMES, start + 1)
        } else if c == '/' {
            found(s, pos, start, TokenView::DIVIDE, start + 1)
        } else if c == '.' {
            found(s, pos, start, TokenView::DOT, start + 1)
        } else if c == '$' {
            found(s, pos, start, TokenView::DOLLAR, start + 1)
        } else if begins_word(c) {
            let end = run_end(s, start, CharClass::Alphanumeric);
            found(s, pos, start, word_token(s.subrange(start, end)), end)
        } else if c == '\'' {
            if is_at(s, start + 2, '\'') {
                found(s, pos, start, TokenView::CHARACTER(s[start + 1]), start + 3)
            } else {
                found(s, pos, start, TokenView::UNKNOWN("'"@), start + 3)
            }
        } else if c == '"' {
            let quote = last_quote(s, start + 1, s.len() as int);
            Scan {
                token: if quote < 0 {
                    TokenView::UNKNOWN("AAAAAAAA"@)
                } else {
                    TokenView::STRINGVAL(s.subrange(start + 1, quote))
                },
                end: s.len() as int,
                feeds: line_feeds(s, pos, start) + line_feeds(s, start + 1, s.len() as int),
            }
        } else if begins_numeral(c) {
            let whole = run_end(s, start, CharClass::Numeric);
            let end = if is_at(s, whole, '.') {
                run_end(s, whole + 1, CharClass::Numeric)
            } else {
                whole
            };
            found(s, pos, start, TokenView::NUMERAL(s.subrange(start, end)), end)
        } else {
            found(s, pos, start, TokenView::UNKNOWN(s.subrange(start, s.len() as int)), start)
        }
    }
}

/// A run ends between its start and the end of the text.
pub proof fn lemma_run_end(s: Seq<char>, pos: int, class: CharClass)
    requires
        0 <= pos <= s.len(),
    ensures
        pos <= run_end(s, pos, class) <= s.len(),
    decreases s.len() - pos,
{
    if pos < s.len() && class.has(s[pos]) {
        lemma_run_end(s, pos + 1, class);
    }
}

/// The line feeds of two adjoining stretches add up.
pub proof fn lemma_line_feeds_add(s: Seq<char>, from: int, mid: int, to: int)
    requires
        0 <= from <= mid <= to <= s.len(),
    ensures
        line_feeds(s, from, to) == line_feeds(s, from, mid) + line_feeds(s, mid, to),
    decreases to - mid,
{
    if mid < to {
        lemma_line_feeds_add(s, from, mid, to - 1);
    }
}

/// The scanner never goes back: it goes on at or behind the place where it
/// stood, and within the text.
pub proof fn lemma_scan_goes_forward(s: Seq<char>, pos: int)
    requires
        0 <= pos <= s.len(),
    ensures
        pos <= scan(s, pos).end <= s.len(),
{
    lemma_run_end(s, pos, CharClass::Space);
    let start = run_end(s, pos, CharClass::Space);
    if start < s.len() {
        lemma_run_end(s, start, CharClass::Alphanumeric);
        lemma_run_end(s, start, CharClass::Numeric);
        let whole = run_end(s, start, CharClass::Numeric);
        if whole < s.len() {
            lemma_run_end(s, whole + 1, CharClass::Numeric);
        }
    }
}

/// Mathematical model of a [`TokenStream`].
pub struct StreamView {
    /// The whole text.
    pub text: Seq<char>,
    /// The number of characters that the scanner has behind it.
    pub pos: nat,
    /// One more than the number of line feeds that the scanner has
    /// counted, as far as the counter can count.
    pub line: nat,
}

/// The line number after `feeds` more line feeds.
pub open spec fn advance_line(line: nat, feeds: nat) -> nat {
    if line + feeds <= u32::MAX {
        line + feeds
    } else {
        u32::MAX as nat
    }
}

/// The scanner: it cuts a text into tokens, one at each call of `next`,
/// and never goes back in it.
pub struct TokenStream<'a> {
    text: &'a str,
    chars: Vec<char>,
    pos: usize,
    line: u32,
}

impl<'a> View for TokenStream<'a> {
    type V = StreamView;

    closed spec fn view(&self) -> StreamView {
        StreamView { text: self.text@, pos: self.pos as nat, line: self.line as nat }
    }
}

impl<'a> TokenStream<'a> {
    #[verifier::type_invariant]
    spec fn well_formed(self) -> bool {
        self.chars@ == self.text@ && self.pos <= self.chars@.len()
    }

    /// A scanner at the start of what `it` has still to give.
    pub fn new(it: Chars<'a>) -> (r: Self)
        ensures
            r@ == (StreamView { text: it.remaining(), pos: 0, line: 1 }),
    {
        let text = rest_of(&it);
        let len = text.unicode_len();
        let mut it = it;
        let mut chars: Vec<char> = Vec::new();
        while chars.len() < len
            invariant
                chars@ + it.remaining() == text@,
                len == text@.len(),
            decreases len - chars.len(),
        {
            match it.next() {
                Some(c) => {
                    chars.push(c);
                    assert(chars@ + it.remaining() =~= text@);
                },
                None => {},
            }
        }
        assert(chars@ =~= text@);
        TokenStream { text, chars, pos: 0, line: 1 }
    }

    /// The end of the run of characters of `class` that starts at `start`.
    fn run(&self, start: usize, class: CharClass) -> (end: usize)
        requires
            start <= self.text@.len(),
        ensures
            end == run_end(self.text@, start as int, class),
            start <= end <= self.text@.len(),
    {
        proof {
            use_type_invariant(self);
        }
        let mut i = start;
        while i < self.chars.len()
            invariant
                start <= i <= self.chars.len(),
                self.chars@ == self.text@,
                run_end(self.text@, start as int, class) == run_end(self.text@, i as int, class),
            decreases self.chars.len() - i,
        {
            if !class.holds(self.chars[i]) {
                return i;
            }
            i += 1;
        }
        i
    }

    /// Whether the character `offset` places behind `base` is `c`.
    fn at(&self, base: usize, offset: usize, c: char) -> (r: bool)
        requires
            base <= self.text@.len(),
        ensures
            r == is_at(self.text@, base + offset, c),
    {
        proof {
            use_type_invariant(self);
        }
        offset < self.chars.len() - base && self.chars[base + offset] == c
    }

    /// Passes white space and counts its line feeds.
    fn skip_space(&mut self)
        ensures
            final(self)@.text == old(self)@.text,
            final(self)@.pos == run_end(old(self)@.text, old(self)@.pos as int, CharClass::Space),
            old(self)@.pos <= final(self)@.pos <= final(self)@.text.len(),
            final(self)@.line == advance_line(
                old(self)@.line,
                line_feeds(old(self)@.text, old(self)@.pos as int, final(self)@.pos as int),
            ),
    {
        proof {
            use_type_invariant(&*self);
        }
        let ghost s = self.text@;
        let ghost from = self.pos as int;
        let ghost line = self.line as nat;
        while self.pos < self.chars.len()
            invariant
                self.text@ == s,
                s == old(self)@.text,
                from == old(self)@.pos,
                line == old(self)@.line,
                self.chars@ == s,
                from <= self.pos <= self.chars.len(),
                run_end(s, from, CharClass::Space) == run_end(s, self.pos as int, CharClass::Space),
                self.line == advance_line(line, line_feeds(s, from, self.pos as int)),
            decreases self.chars.len() - self.pos,
        {
            let c = self.chars[self.pos];
            if !char_is_whitespace(c) {
                return ;
            }
            assert(line_feeds(s, from, self.pos + 1) == line_feeds(s, from, self.pos as int) + if c
                == '\n' {
                1nat
            } else {
                0nat
            });
            if c == '\n' && self.line < u32::MAX {
                self.line = self.line + 1;
            }
            self.pos = self.pos + 1;
        }
    }

    /// The rest of a string literal whose opening quote lies before `from`.
    fn string(&mut self, from: usize) -> (r: Token<'a>)
        requires
            from <= old(self)@.text.len(),
        ensures
            final(self)@.text == old(self)@.text,
            final(self)@.pos == final(self)@.text.len(),
            final(self)@.line == advance_line(
                old(self)@.line,
                line_feeds(old(self)@.text, from as int, old(self)@.text.len() as int),
            ),
            r@ == if last_quote(old(self)@.text, from as int, old(self)@.text.len() as int) < 0 {
                TokenView::UNKNOWN("AAAAAAAA"@)
            } else {
                TokenView::STRINGVAL(
                    old(self)@.text.subrange(
                        from as int,
                        last_quote(old(self)@.text, from as int, old(self)@.text.len() as int),
                    ),
                )
            },
    {
        proof {
            use_type_invariant(&*self);
        }
        let ghost s = self.text@;
        let ghost line = self.line as nat;
        let mut quote: Option<usize> = None;
        let mut i = from;
        while i < self.chars.len()
            invariant
                self.text@ == s,
                self.chars@ == s,
                self.pos <= self.chars.len(),
                from <= i <= self.chars.len(),
                self.line == advance_line(line, line_feeds(s, from as int, i as int)),
                match quote {
                    Some(q) => from <= q < i && q == last_quote(s, from as int, i as int),
                    None => last_quote(s, from as int, i as int) < 0,
                },
            decreases self.chars.len() - i,
        {
            let c = self.chars[i];
            if c == '\n' {
                if self.line < u32::MAX {
                    self.line = self.line + 1;
                }
            } else if c == '"' {
                quote = Some(i);
            }
            i += 1;
        }
        self.pos = self.chars.len();
        match quote {
            Some(q) => Token::STRINGVAL(self.text.substring_char(from, q)),
            None => Token::UNKNOWN("AAAAAAAA"),
        }
    }

    /// The reserved word that `word` is, or the identifier.
    fn word(word: &'a str) -> (r: Token<'a>)
        ensures
            r@ == word_token(word@),
    {
        if str_eq(word, "array") {
            Token::ARRAY
        } else if str_eq(word, "boolean") {
            Token::BOOLEAN
        } else if str_eq(word, "break") {
            Token::BREAK
        } else if str_eq(word, "char") {
            Token::CHAR
        } else if str_eq(word, "continue") {
            Token::CONTINUE
        } else if str_eq(word, "do") {
            Token::DO
        } else if str_eq(word, "function") {
            Token::FUNCTION
        } else if str_eq(word, "if") {
            Token::IF
        } else if str_eq(word, "else") {
            Token::ELSE
        } else if str_eq(word, "integer") {
            Token::INTEGER
        } else if str_eq(word, "of") {
            Token::OF
        } else if str_eq(word, "string") {
            Token::STRING
        } else if str_eq(word, "struct") {
            Token::STRUCT
        } else if str_eq(word, "true") {
            Token::TRUE
        } else if str_eq(word, "false") {
            Token::FALSE
        } else if str_eq(word, "type") {
            Token::TYPE
        } else if str_eq(word, "var") {
            Token::VAR
        } else if str_eq(word, "while") {
            Token::WHILE
        } else {
            Token::ID(word)
        }
    }

    /// Moves on by `width` characters, or to the end of the text if that comes first.
    fn move_by(&mut self, width: usize)
        ensures
            final(self)@.text == old(self)@.text,
            final(self)@.line == old(self)@.line,
            final(self)@.pos == if old(self)@.pos + width <= old(self)@.text.len() {
                old(self)@.pos + width
            } else {
                old(self)@.text.len() as int
            },
    {
        proof {
            use_type_invariant(&*self);
        }
        self.pos = if width <= self.chars.len() - self.pos {
            self.pos + width
        } else {
            self.chars.len()
        };
    }

    /// The symbol that begins with `c` at the scanner's position, if `c` begins one.
    #[verifier::rlimit(50)]
    fn symbol(&mut self, c: char) -> (r: Option<Token<'a>>)
        requires
            is_at(old(self)@.text, old(self)@.pos as int, c),
            old(self)@.pos == run_end(old(self)@.text, old(self)@.pos as int, CharClass::Space),
        ensures
            final(self)@.text == old(self)@.text,
            final(self)@.line == old(self)@.line,
            match r {
                Some(t) => is_symbol_start(c) && t@ == scan(
                    old(self)@.text,
                    old(self)@.pos as int,
                ).token && final(self)@.pos == scan(old(self)@.text, old(self)@.pos as int).end,
                None => !is_symbol_start(c) && final(self)@.pos == old(self)@.pos,
            },
    {
        proof {
            use_type_invariant(&*self);
        }
        let start = self.pos;
        let (token, width): (Token<'a>, usize) = if c == ':' {
            (Token::COLON, 1)
        } else if c == ';' {
            (Token::SEMICOLON, 1)
        } else if c == ',' {
            (Token::COMMA, 1)
        } else if c == '=' {
            if self.at(start, 1, '=') {
                (Token::EQUALEQUAL, 2)
            } else {
                (Token::EQUAL, 1)
            }
        } else if c == '[' {
            (Token::LEFTSQUARE, 1)
        } else if c == ']' {
            (Token::RIGHTSQUARE, 1)
        } else if c == '{' {
            (Token::LEFTBRACE, 1)
        } else if c == '}' {
            (Token::RIGHTBRACE, 1)
        } else if c == '(' {
            (Token::LEFTPARENTHESIS, 1)
        } else if c == ')' {
            (Token::RIGHTPARENTHESIS, 1)
        } else if c == '&' {
            if self.at(start, 1, '&') {
                (Token::AND, 2)
            } else {
                (Token::UNKNOWN("&"), 2)
            }
        } else if c == '|' {
            if self.at(start, 1, '|') {
                (Token::OR, 2)
            } else {
                (Token::UNKNOWN("|"), 2)
            }
        } else if c == '<' {
            if self.at(start, 1, '=') {
                (Token::LESSOREQUAL, 2)
            } else {
                (Token::LESSTHAN, 1)
            }
        } else if c == '>' {
            if self.at(start, 1, '=') {
                (Token::GREATEROREQUAL, 2)
            } else {
                (Token::GREATERTHAN, 1)
            }
        } else if c == '!' {
            if self.at(start, 1, '=') {
                (Token::NOTEQUAL, 2)
            } else {
                (Token::NOT, 1)
            }
        } else if c == '+' {
            if self.at(start, 1, '+') {
                (Token::PLUSPLUS, 2)
            } else {
                (Token::PLUS, 1)
            }
        } else if c == '-' {
            if self.at(start, 1, '-') {
                (Token::MINUSMINUS, 2)
            } else {
                (Token::MINUS, 1)
            }
        } else if c == '*' {
            (Token::TIMES, 1)
        } else if c == '/' {
            (Token::DIVIDE, 1)
        } else if c == '.' {
            (Token::DOT, 1)
        } else if c == '$' {
            (Token::DOLLAR, 1)
        } else {
            return None;
        };
        self.move_by(width);
        Some(token)
    }

    /// The next token. The stream does not end: after the last token of
    /// the text it gives the end mark, again and again.
    #[verifier::rlimit(50)]
    pub fn next(&mut self) -> (r: Option<Token<'a>>)
        ensures
            r is Some,
            r->Some_0@ == scan(old(self)@.text, old(self)@.pos as int).token,
            final(self)@.text == old(self)@.text,
            final(self)@.pos == scan(old(self)@.text, old(self)@.pos as int).end,
            final(self)@.line == advance_line(
                old(self)@.line,
                scan(old(self)@.text, old(self)@.pos as int).feeds,
            ),
    {
        proof {
            use_type_invariant(&*self);
        }
        let ghost s = self.text@;
        let ghost pos = self.pos as int;
        self.skip_space();
        proof {
            use_type_invariant(&*self);
            lemma_stays(s, pos);
        }
        let start = self.pos;
        if start >= self.chars.len() {
            return Some(Token::DOLLAR);
        }
        let c = self.chars[start];
        if let Some(token) = self.symbol(c) {
            return Some(token);
        }
        proof {
            use_type_invariant(&*self);
        }
        if (c >= 'a' && c <= 'z') || (c >= 'A' && c <= 'Z') || c == '_' {
            let end = self.run(start, CharClass::Alphanumeric);
            self.move_by(end - start);
            Some(Self::word(self.text.substring_char(start, end)))
        } else if c == '\'' {
            let token = if self.at(start, 2, '\'') {
                Token::CHARACTER(self.chars[start + 1])
            } else {
                Token::UNKNOWN("'")
            };
            self.move_by(3);
            Some(token)
        } else if c == '"' {
            proof {
                lemma_line_feeds_add(s, pos, start as int, start as int);
            }
            let ghost line = self.line as nat;
            let token = self.string(start + 1);
            assert(self@.line == advance_line(
                advance_line(old(self)@.line, line_feeds(s, pos, start as int)),
                line_feeds(s, start + 1, s.len() as int),
            ));
            Some(token)
        } else if c >= '0' && c <= '9' {
            let whole = self.run(start, CharClass::Numeric);
            let end = if self.at(whole, 0, '.') {
                self.run(whole + 1, CharClass::Numeric)
            } else {
                whole
            };
            self.move_by(end - start);
            Some(Token::NUMERAL(self.text.substring_char(start, end)))
        } else {
            Some(Token::UNKNOWN(self.text.substring_char(start, self.chars.len())))
        }
    }

    /// The line at which the scanner stands, counted from 1.
    pub fn line(&self) -> (r: u32)
        ensures
            r == self@.line,
    {
        self.line
    }
}

/// Whether a character begins a symbol.
pub open spec fn is_symbol_start(c: char) -> bool {
    c == ':' || c == ';' || c == ',' || c == '=' || c == '[' || c == ']' || c == '{' || c == '}'
        || c == '(' || c == ')' || c == '&' || c == '|' || c == '<' || c == '>' || c == '!' || c
        == '+' || c == '-' || c == '*' || c == '/' || c == '.' || c == '$'
}

/// Where the white space from `pos` on ends, no white space begins.
pub proof fn lemma_stays(s: Seq<char>, pos: int)
    requires
        0 <= pos <= s.len(),
    ensures
        run_end(s, run_end(s, pos, CharClass::Space), CharClass::Space) == run_end(
            s,
            pos,
            CharClass::Space,
        ),
    decreases s.len() - pos,
{
    if pos < s.len() && CharClass::Space.has(s[pos]) {
        lemma_stays(s, pos + 1);
    }
}

/// Takes the text that an iterator over characters has still to give,
/// with `Chars::as_str`: the characters of the slice that it returns are
/// those that the iterator would yield, in their order.
#[verifier::external_body]
fn rest_of<'a>(it: &Chars<'a>) -> (r: &'a str)
    ensures
        r@ == it.remaining(),
{
    it.as_str()
}

} // verus!
