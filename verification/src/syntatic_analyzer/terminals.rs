use crate::text::char_to_string;
use crate::syntatic_analyzer::nonterminals::NONTERMINAL_COUNT;
use crate::token;
use vstd::prelude::*;
use vstd::std_specs::convert::FromSpecImpl;
use vstd::string::StringExecFns;

verus! {

/// Mathematical model of a [`Token`]: the text of a literal is a sequence of characters.
pub enum TokenView {
    COLON,
    SEMICOLON,
    COMMA,
    EQUAL,
    EQUALEQUAL,
    LEFTSQUARE,
    RIGHTSQUARE,
    LEFTBRACE,
    RIGHTBRACE,
    LEFTPARENTHESIS,
    RIGHTPARENTHESIS,
    AND,
    OR,
    LESSTHAN,
    LESSOREQUAL,
    GREATERTHAN,
    GREATEROREQUAL,
    NOT,
    NOTEQUAL,
    PLUS,
    PLUSPLUS,
    MINUS,
    MINUSMINUS,
    TIMES,
    DIVIDE,
    DOT,
    ARRAY,
    BOOLEAN,
    BREAK,
    CHAR,
    CONTINUE,
    DO,
    FUNCTION,
    IF,
    ELSE,
    INTEGER,
    OF,
    RETURN,
    STRING,
    STRUCT,
    TRUE,
    FALSE,
    TYPE,
    VAR,
    WHILE,
    DOLLAR,
    ID(Seq<char>),
    CHARACTER(char),
    STRINGVAL(Seq<char>),
    NUMERAL(Seq<char>),
    UNKNOWN(Seq<char>),
}

/// A terminal of the grammar.
#[derive(Debug, Clone, Copy, PartialEq)]
pub enum Token<'a> {
    // Symbols
    COLON,
    SEMICOLON,
    COMMA,
    EQUAL,
    EQUALEQUAL,
    LEFTSQUARE,
    RIGHTSQUARE,
    LEFTBRACE,
    RIGHTBRACE,
    LEFTPARENTHESIS,
    RIGHTPARENTHESIS,
    AND,
    OR,
    LESSTHAN,
    LESSOREQUAL,
    GREATERTHAN,
    GREATEROREQUAL,
    NOT,
    NOTEQUAL,
    PLUS,
    PLUSPLUS,
    MINUS,
    MINUSMINUS,
    TIMES,
    DIVIDE,
    DOT,
    // Reserved words
    ARRAY,
    BOOLEAN,
    BREAK,
    CHAR,
    CONTINUE,
    DO,
    FUNCTION,
    IF,
    ELSE,
    INTEGER,
    OF,
    RETURN,
    STRING,
    STRUCT,
    TRUE,
    FALSE,
    TYPE,
    VAR,
    WHILE,
    /// The end of the program.
    DOLLAR,
    // Literals and identifiers
    ID(&'a str),
    CHARACTER(char),
    STRINGVAL(&'a str),
    NUMERAL(&'a str),
    /// Text that begins no token.
    UNKNOWN(&'a str),
}

impl<'a> View for Token<'a> {
    type V = TokenView;

    open spec fn view(&self) -> TokenView {
        match *self {
            Token::COLON => TokenView::COLON,
            Token::SEMICOLON => TokenView::SEMICOLON,
            Token::COMMA => TokenView::COMMA,
            Token::EQUAL => TokenView::EQUAL,
            Token::EQUALEQUAL => TokenView::EQUALEQUAL,
            Token::LEFTSQUARE => TokenView::LEFTSQUARE,
            Token::RIGHTSQUARE => TokenView::RIGHTSQUARE,
            Token::LEFTBRACE => TokenView::LEFTBRACE,
            Token::RIGHTBRACE => TokenView::RIGHTBRACE,
            Token::LEFTPARENTHESIS => TokenView::LEFTPARENTHESIS,
            Token::RIGHTPARENTHESIS => TokenView::RIGHTPARENTHESIS,
            Token::AND => TokenView::AND,
            Token::OR => TokenView::OR,
            Token::LESSTHAN => TokenView::LESSTHAN,
            Token::LESSOREQUAL => TokenView::LESSOREQUAL,
            Token::GREATERTHAN => TokenView::GREATERTHAN,
            Token::GREATEROREQUAL => TokenView::GREATEROREQUAL,
            Token::NOT => TokenView::NOT,
            Token::NOTEQUAL => TokenView::NOTEQUAL,
            Token::PLUS => TokenView::PLUS,
            Token::PLUSPLUS => TokenView::PLUSPLUS,
            Token::MINUS => TokenView::MINUS,
            Token::MINUSMINUS => TokenView::MINUSMINUS,
            Token::TIMES => TokenView::TIMES,
            Token::DIVIDE => TokenView::DIVIDE,
            Token::DOT => TokenView::DOT,
            Token::ARRAY => TokenView::ARRAY,
            Token::BOOLEAN => TokenView::BOOLEAN,
            Token::BREAK => TokenView::BREAK,
            Token::CHAR => TokenView::CHAR,
            Token::CONTINUE => TokenView::CONTINUE,
            Token::DO => TokenView::DO,
            Token::FUNCTION => TokenView::FUNCTION,
            Token::IF => TokenView::IF,
            Token::ELSE => TokenView::ELSE,
            Token::INTEGER => TokenView::INTEGER,
            Token::OF => TokenView::OF,
            Token::RETURN => TokenView::RETURN,
            Token::STRING => TokenView::STRING,
            Token::STRUCT => TokenView::STRUCT,
            Token::TRUE => TokenView::TRUE,
            Token::FALSE => TokenView::FALSE,
            Token::TYPE => TokenView::TYPE,
            Token::VAR => TokenView::VAR,
            Token::WHILE => TokenView::WHILE,
            Token::DOLLAR => TokenView::DOLLAR,
            Token::ID(s) => TokenView::ID(s@),
            Token::CHARACTER(c) => TokenView::CHARACTER(c),
            Token::STRINGVAL(s) => TokenView::STRINGVAL(s@),
            Token::NUMERAL(s) => TokenView::NUMERAL(s@),
            Token::UNKNOWN(s) => TokenView::UNKNOWN(s@),
        }
    }
}

/// The id of a token that begins with text that the language does not know.
pub const UNKNOWN_ID: usize = 1000;

/// The number of columns of the action table: one for each nonterminal
/// and one for each terminal.
pub const SYMBOL_COUNT: usize = 86;

impl TokenView {
    /// The column of the action table that belongs to this token. All
    /// identifiers share one, and so do all literals of one kind.
    pub open spec fn id(self) -> nat {
        match self {
            TokenView::ARRAY => 36,
            TokenView::BOOLEAN => 37,
            TokenView::BREAK => 38,
            TokenView::CHAR => 39,
            TokenView::CONTINUE => 40,
            TokenView::DO => 41,
            TokenView::ELSE => 42,
            TokenView::FALSE => 43,
            TokenView::FUNCTION => 44,
            TokenView::IF => 45,
            TokenView::INTEGER => 46,
            TokenView::OF => 47,
            TokenView::RETURN => 48,
            TokenView::STRING => 49,
            TokenView::STRUCT => 50,
            TokenView::TRUE => 51,
            TokenView::TYPE => 52,
            TokenView::VAR => 53,
            TokenView::WHILE => 54,
            TokenView::COLON => 55,
            TokenView::SEMICOLON => 56,
            TokenView::COMMA => 57,
            TokenView::EQUAL => 58,
            TokenView::LEFTSQUARE => 59,
            TokenView::RIGHTSQUARE => 60,
            TokenView::LEFTBRACE => 61,
            TokenView::RIGHTBRACE => 62,
            TokenView::LEFTPARENTHESIS => 63,
            TokenView::RIGHTPARENTHESIS => 64,
            TokenView::AND => 65,
            TokenView::OR => 66,
            TokenView::LESSTHAN => 67,
            TokenView::GREATERTHAN => 68,
            TokenView::LESSOREQUAL => 69,
            TokenView::GREATEROREQUAL => 70,
            TokenView::NOTEQUAL => 71,
            TokenView::EQUALEQUAL => 72,
            TokenView::PLUS => 73,
            TokenView::PLUSPLUS => 74,
            TokenView::MINUS => 75,
            TokenView::MINUSMINUS => 76,
            TokenView::TIMES => 77,
            TokenView::DIVIDE => 78,
            TokenView::DOT => 79,
            TokenView::NOT => 80,
            TokenView::CHARACTER(_) => 81,
            TokenView::NUMERAL(_) => 82,
            TokenView::STRINGVAL(_) => 83,
            TokenView::ID(_) => 84,
            TokenView::DOLLAR => 85,
            TokenView::UNKNOWN(_) => 1000,
        }
    }

    /// The text that the token carries, where it is an identifier or a literal.
    pub open spec fn lexeme(self) -> Option<Seq<char>> {
        match self {
            TokenView::ID(s) => Some(s),
            TokenView::CHARACTER(c) => Some(seq![c]),
            TokenView::STRINGVAL(s) => Some(s),
            TokenView::NUMERAL(s) => Some(s),
            _ => None,
        }
    }
}

impl<'a> From<Token<'a>> for usize {
    fn from(t: Token<'a>) -> (r: usize) {
        match t {
            Token::ARRAY => 36,
            Token::BOOLEAN => 37,
            Token::BREAK => 38,
            Token::CHAR => 39,
            Token::CONTINUE => 40,
            Token::DO => 41,
            Token::ELSE => 42,
            Token::FALSE => 43,
            Token::FUNCTION => 44,
            Token::IF => 45,
            Token::INTEGER => 46,
            Token::OF => 47,
            Token::RETURN => 48,
            Token::STRING => 49,
            Token::STRUCT => 50,
            Token::TRUE => 51,
            Token::TYPE => 52,
            Token::VAR => 53,
            Token::WHILE => 54,
            Token::COLON => 55,
            Token::SEMICOLON => 56,
            Token::COMMA => 57,
            Token::EQUAL => 58,
            Token::LEFTSQUARE => 59,
            Token::RIGHTSQUARE => 60,
            Token::LEFTBRACE => 61,
            Token::RIGHTBRACE => 62,
            Token::LEFTPARENTHESIS => 63,
            Token::RIGHTPARENTHESIS => 64,
            Token::AND => 65,
            Token::OR => 66,
            Token::LESSTHAN => 67,
            Token::GREATERTHAN => 68,
            Token::LESSOREQUAL => 69,
            Token::GREATEROREQUAL => 70,
            Token::NOTEQUAL => 71,
            Token::EQUALEQUAL => 72,
            Token::PLUS => 73,
            Token::PLUSPLUS => 74,
            Token::MINUS => 75,
            Token::MINUSMINUS => 76,
            Token::TIMES => 77,
            Token::DIVIDE => 78,
            Token::DOT => 79,
            Token::NOT => 80,
            Token::CHARACTER(_) => 81,
            Token::NUMERAL(_) => 82,
            Token::STRINGVAL(_) => 83,
            Token::ID(_) => 84,
            Token::DOLLAR => 85,
            Token::UNKNOWN(_) => 1000,
        }
    }
}

impl<'a> FromSpecImpl<Token<'a>> for usize {
    open spec fn obeys_from_spec() -> bool {
        true
    }

    open spec fn from_spec(t: Token<'a>) -> usize {
        t@.id() as usize
    }
}

/// Terminals and nonterminals have columns of their own in the action
/// table: those of the nonterminals come first, and unknown text has a
/// column far behind the table.
pub proof fn lemma_columns_are_disjoint(t: TokenView, n: crate::syntatic_analyzer::nonterminals::Token)
    ensures
        n.id() < NONTERMINAL_COUNT <= t.id(),
        t is UNKNOWN <==> t.id() == UNKNOWN_ID,
        !(t is UNKNOWN) ==> t.id() < SYMBOL_COUNT,
{
}

/// The terminal that a token of the scanner is.
pub open spec fn lift(t: token::TokenView) -> TokenView {
    match t {
        token::TokenView::COLON => TokenView::COLON,
        token::TokenView::SEMICOLON => TokenView::SEMICOLON,
        token::TokenView::COMMA => TokenView::COMMA,
        token::TokenView::EQUAL => TokenView::EQUAL,
        token::TokenView::EQUALEQUAL => TokenView::EQUALEQUAL,
        token::TokenView::LEFTSQUARE => TokenView::LEFTSQUARE,
        token::TokenView::RIGHTSQUARE => TokenView::RIGHTSQUARE,
        token::TokenView::LEFTBRACE => TokenView::LEFTBRACE,
        token::TokenView::RIGHTBRACE => TokenView::RIGHTBRACE,
        token::TokenView::LEFTPARENTHESIS => TokenView::LEFTPARENTHESIS,
        token::TokenView::RIGHTPARENTHESIS => TokenView::RIGHTPARENTHESIS,
        token::TokenView::AND => TokenView::AND,
        token::TokenView::OR => TokenView::OR,
        token::TokenView::LESSTHAN => TokenView::LESSTHAN,
        token::TokenView::LESSOREQUAL => TokenView::LESSOREQUAL,
        token::TokenView::GREATERTHAN => TokenView::GREATERTHAN,
        token::TokenView::GREATEROREQUAL => TokenView::GREATEROREQUAL,
        token::TokenView::NOT => TokenView::NOT,
        token::TokenView::NOTEQUAL => TokenView::NOTEQUAL,
        token::TokenView::PLUS => TokenView::PLUS,
        token::TokenView::PLUSPLUS => TokenView::PLUSPLUS,
        token::TokenView::MINUS => TokenView::MINUS,
        token::TokenView::MINUSMINUS => TokenView::MINUSMINUS,
        token::TokenView::TIMES => TokenView::TIMES,
        token::TokenView::DIVIDE => TokenView::DIVIDE,
        token::TokenView::DOT => TokenView::DOT,
        token::TokenView::ARRAY => TokenView::ARRAY,
        token::TokenView::BOOLEAN => TokenView::BOOLEAN,
        token::TokenView::BREAK => TokenView::BREAK,
        token::TokenView::CHAR => TokenView::CHAR,
        token::TokenView::CONTINUE => TokenView::CONTINUE,
        token::TokenView::DO => TokenView::DO,
        token::TokenView::FUNCTION => TokenView::FUNCTION,
        token::TokenView::IF => TokenView::IF,
        token::TokenView::ELSE => TokenView::ELSE,
        token::TokenView::INTEGER => TokenView::INTEGER,
        token::TokenView::OF => TokenView::OF,
        token::TokenView::STRING => TokenView::STRING,
        token::TokenView::STRUCT => TokenView::STRUCT,
        token::TokenView::TRUE => TokenView::TRUE,
        token::TokenView::FALSE => TokenView::FALSE,
        token::TokenView::TYPE => TokenView::TYPE,
        token::TokenView::VAR => TokenView::VAR,
        token::TokenView::WHILE => TokenView::WHILE,
        token::TokenView::DOLLAR => TokenView::DOLLAR,
        token::TokenView::ID(x) => TokenView::ID(x),
        token::TokenView::CHARACTER(x) => TokenView::CHARACTER(x),
        token::TokenView::STRINGVAL(x) => TokenView::STRINGVAL(x),
        token::TokenView::NUMERAL(x) => TokenView::NUMERAL(x),
        token::TokenView::UNKNOWN(x) => TokenView::UNKNOWN(x),
    }
}

impl<'a> Token<'a> {
    /// The terminal that a token of the scanner is. No token is `RETURN`:
    /// the scanner reads that word as an identifier.
    pub fn from_token(t: token::Token<'a>) -> (r: Token<'a>)
        ensures
            r@ == lift(t@),
    {
        match t {
            token::Token::COLON => Token::COLON,
            token::Token::SEMICOLON => Token::SEMICOLON,
            token::Token::COMMA => Token::COMMA,
            token::Token::EQUAL => Token::EQUAL,
            token::Token::EQUALEQUAL => Token::EQUALEQUAL,
            token::Token::LEFTSQUARE => Token::LEFTSQUARE,
            token::Token::RIGHTSQUARE => Token::RIGHTSQUARE,
            token::Token::LEFTBRACE => Token::LEFTBRACE,
            token::Token::RIGHTBRACE => Token::RIGHTBRACE,
            token::Token::LEFTPARENTHESIS => Token::LEFTPARENTHESIS,
            token::Token::RIGHTPARENTHESIS => Token::RIGHTPARENTHESIS,
            token::Token::AND => Token::AND,
            token::Token::OR => Token::OR,
            token::Token::LESSTHAN => Token::LESSTHAN,
            token::Token::LESSOREQUAL => Token::LESSOREQUAL,
            token::Token::GREATERTHAN => Token::GREATERTHAN,
            token::Token::GREATEROREQUAL => Token::GREATEROREQUAL,
            token::Token::NOT => Token::NOT,
            token::Token::NOTEQUAL => Token::NOTEQUAL,
            token::Token::PLUS => Token::PLUS,
            token::Token::PLUSPLUS => Token::PLUSPLUS,
            token::Token::MINUS => Token::MINUS,
            token::Token::MINUSMINUS => Token::MINUSMINUS,
            token::Token::TIMES => Token::TIMES,
            token::Token::DIVIDE => Token::DIVIDE,
            token::Token::DOT => Token::DOT,
            token::Token::ARRAY => Token::ARRAY,
            token::Token::BOOLEAN => Token::BOOLEAN,
            token::Token::BREAK => Token::BREAK,
            token::Token::CHAR => Token::CHAR,
            token::Token::CONTINUE => Token::CONTINUE,
            token::Token::DO => Token::DO,
            token::Token::FUNCTION => Token::FUNCTION,
            token::Token::IF => Token::IF,
            token::Token::ELSE => Token::ELSE,
            token::Token::INTEGER => Token::INTEGER,
            token::Token::OF => Token::OF,
            token::Token::STRING => Token::STRING,
            token::Token::STRUCT => Token::STRUCT,
            token::Token::TRUE => Token::TRUE,
            token::Token::FALSE => Token::FALSE,
            token::Token::TYPE => Token::TYPE,
            token::Token::VAR => Token::VAR,
            token::Token::WHILE => Token::WHILE,
            token::Token::DOLLAR => Token::DOLLAR,
            token::Token::ID(x) => Token::ID(x),
            token::Token::CHARACTER(x) => Token::CHARACTER(x),
            token::Token::STRINGVAL(x) => Token::STRINGVAL(x),
            token::Token::NUMERAL(x) => Token::NUMERAL(x),
            token::Token::UNKNOWN(x) => Token::UNKNOWN(x),
        }
    }

    /// The text that the terminal carries, where it is an identifier or a literal.
    pub fn text(&self) -> (r: Option<String>)
        ensures
            match r {
                Some(s) => self@.lexeme() == Some(s@),
                None => self@.lexeme() is None,
            },
    {
        match self {
            Token::ID(id) => Some(String::from_str(id)),
            Token::CHARACTER(ch) => Some(char_to_string(*ch)),
            Token::STRINGVAL(str_val) => Some(String::from_str(str_val)),
            Token::NUMERAL(num) => Some(String::from_str(num)),
            _ => None,
        }
    }
}

} // verus!
