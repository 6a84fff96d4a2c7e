use crate::syntatic_analyzer::nonterminals::Token;
use vstd::prelude::*;

verus! {

/// The productions of the grammar. A reduction by one of them runs its
/// semantic action.
#[allow(non_camel_case_types)]
#[derive(Debug, Clone, Copy, PartialEq, Eq, Structural)]
pub enum Rules {
    /// P -> LDE
    P,
    /// LDE -> LDE DE
    LDE_LDE,
    /// LDE -> DE
    LDE_DE,
    /// DE -> DF
    DE_DF,
    /// DE -> DT
    DE_DT,
    /// T -> `integer`
    T_INT,
    /// T -> `char`
    T_CHAR,
    /// T -> `boolean`
    T_BOOL,
    /// T -> `string`
    T_STRING,
    /// T -> IDU
    T_IDU,
    /// DT -> `type` IDD `=` `array` `[` NUM `]` `of` T
    DT_ARRAY,
    /// DT -> `type` IDD `=` `struct` NB `{` DC `}`
    DT_STRUCT,
    /// DT -> `type` IDD `=` T
    DT_ALIAS,
    /// DC -> DC `;` LI `:` T
    DC_DC,
    /// DC -> LI `:` T
    DC_LI,
    /// DF -> `function` IDD NF `(` LP `)` `:` T MF B
    DF,
    /// LP -> LP `,` IDD `:` T
    LP_LP,
    /// LP -> IDD `:` T
    LP_IDD,
    /// B -> `{` LDV LS `}`
    B,
    /// LDV -> LDV DV
    LDV_LDV,
    /// LDV -> DV
    LDV_DV,
    /// LS -> LS S
    LS_LS,
    /// LS -> S
    LS_S,
    /// DV -> `var` LI `:` T `;`
    DV,
    /// LI -> LI `,` IDD
    LI_LI,
    /// LI -> IDD
    LI_IDD,
    /// S -> `if` `(` E `)` MT S
    S_IF,
    /// S -> `if` `(` E `)` MT S `else` ME S
    S_IF_ELSE,
    /// S -> `while` MW `(` E `)` MT S
    S_WHILE,
    /// S -> `do` MW S `while` `(` E `)` `;`
    S_DO_WHILE,
    /// S -> NB B
    S_NB,
    /// S -> LV `=` E `;`
    S_LV,
    /// S -> `break` `;`
    S_BREAK,
    /// S -> `continue` `;`
    S_CONTINUE,
    /// E -> E `&&` L
    E_AND,
    /// E -> E `||` L
    E_OR,
    /// E -> L
    E_L,
    /// L -> L `<` R
    L_LESS_THAN,
    /// L -> L `>` R
    L_GREATER_THAN,
    /// L -> L `<=` R
    L_LESS_EQUAL,
    /// L -> L `>=` R
    L_GREATER_EQUAL,
    /// L -> L `==` R
    L_EQUAL_EQUAL,
    /// L -> L `!=` R
    L_NOT_EQUAL,
    /// L -> R
    L_R,
    /// R -> R `+` Y
    R_PLUS,
    /// R -> R `-` Y
    R_MINUS,
    /// R -> Y
    R_Y,
    /// Y -> Y `*` F
    Y_TIMES,
    /// Y -> Y `/` F
    Y_DIVIDE,
    /// Y -> F
    Y_F,
    /// F -> LV
    F_LV,
    /// F -> `++` LV
    F_PLUSPLUS,
    /// F -> `--` LV
    F_MINUSMINUS,
    /// F -> LV `++`
    F_LV_PLUSPLUS,
    /// F -> LV `--`
    F_LV_MINUSMINUS,
    /// F -> `(` E `)`
    F_PAR_E_PAR,
    /// F -> IDU MC `(` LE `)`
    F_FUNC_CALL,
    /// F -> IDU MC `(` `)`
    F_FUNC_CALL_EMPTY,
    /// F -> `-` F
    F_NEGATIVE,
    /// F -> `!` F
    F_NOT,
    /// F -> TRUE
    F_TRUE,
    /// F -> FALSE
    F_FALSE,
    /// F -> C
    F_C,
    /// F -> STR
    F_STR,
    /// F -> NUM
    F_NUM,
    /// LE -> LE `,` E
    LE_LE,
    /// LE -> E
    LE_E,
    /// LV -> LV `.` ID
    LV_STRUCT,
    /// LV -> LV `[` E `]`
    LV_ARR,
    /// LV -> IDU
    LV_IDU,
    /// IDD -> identifier
    IDD,
    /// IDU -> identifier
    IDU,
    /// ID -> identifier
    ID,
    /// TRUE -> `true`
    TRUE,
    /// FALSE -> `false`
    FALSE,
    /// C -> character
    C,
    /// STR -> string literal
    STR,
    /// NUM -> numeral
    NUM,
    /// NB -> (empty)
    NB,
    /// NF -> (empty)
    NF,
    /// MF -> (empty)
    MF,
    /// MC -> (empty)
    MC,
    /// MT -> (empty)
    MT,
    /// ME -> (empty)
    ME,
    /// MW -> (empty)
    MW,
}

/// Number of productions; the action table names them `0 .. RULE_COUNT`.
pub const RULE_COUNT: usize = 85;

impl Rules {
    /// The number by which the parsing tables name this production.
    pub open spec fn index(self) -> nat {
        match self {
            Rules::P => 0,
            Rules::LDE_LDE => 1,
            Rules::LDE_DE => 2,
            Rules::DE_DF => 3,
            Rules::DE_DT => 4,
            Rules::T_INT => 5,
            Rules::T_CHAR => 6,
            Rules::T_BOOL => 7,
            Rules::T_STRING => 8,
            Rules::T_IDU => 9,
            Rules::DT_ARRAY => 10,
            Rules::DT_STRUCT => 11,
            Rules::DT_ALIAS => 12,
            Rules::DC_DC => 13,
            Rules::DC_LI => 14,
            Rules::DF => 15,
            Rules::LP_LP => 16,
            Rules::LP_IDD => 17,
            Rules::B => 18,
            Rules::LDV_LDV => 19,
            Rules::LDV_DV => 20,
            Rules::LS_LS => 21,
            Rules::LS_S => 22,
            Rules::DV => 23,
            Rules::LI_LI => 24,
            Rules::LI_IDD => 25,
            Rules::S_IF => 26,
            Rules::S_IF_ELSE => 27,
            Rules::S_WHILE => 28,
            Rules::S_DO_WHILE => 29,
            Rules::S_NB => 30,
            Rules::S_LV => 31,
            Rules::S_BREAK => 32,
            Rules::S_CONTINUE => 33,
            Rules::E_AND => 34,
            Rules::E_OR => 35,
            Rules::E_L => 36,
            Rules::L_LESS_THAN => 37,
            Rules::L_GREATER_THAN => 38,
            Rules::L_LESS_EQUAL => 39,
            Rules::L_GREATER_EQUAL => 40,
            Rules::L_EQUAL_EQUAL => 41,
            Rules::L_NOT_EQUAL => 42,
            Rules::L_R => 43,
            Rules::R_PLUS => 44,
            Rules::R_MINUS => 45,
            Rules::R_Y => 46,
            Rules::Y_TIMES => 47,
            Rules::Y_DIVIDE => 48,
            Rules::Y_F => 49,
            Rules::F_LV => 50,
            Rules::F_PLUSPLUS => 51,
            Rules::F_MINUSMINUS => 52,
            Rules::F_LV_PLUSPLUS => 53,
            Rules::F_LV_MINUSMINUS => 54,
            Rules::F_PAR_E_PAR => 55,
            Rules::F_FUNC_CALL => 56,
            Rules::F_FUNC_CALL_EMPTY => 57,
            Rules::F_NEGATIVE => 58,
            Rules::F_NOT => 59,
            Rules::F_TRUE => 60,
            Rules::F_FALSE => 61,
            Rules::F_C => 62,
            Rules::F_STR => 63,
            Rules::F_NUM => 64,
            Rules::LE_LE => 65,
            Rules::LE_E => 66,
            Rules::LV_STRUCT => 67,
            Rules::LV_ARR => 68,
            Rules::LV_IDU => 69,
            Rules::IDD => 70,
            Rules::IDU => 71,
            Rules::ID => 72,
            Rules::TRUE => 73,
            Rules::FALSE => 74,
            Rules::C => 75,
            Rules::STR => 76,
            Rules::NUM => 77,
            Rules::NB => 78,
            Rules::NF => 79,
            Rules::MF => 80,
            Rules::MC => 81,
            Rules::MT => 82,
            Rules::ME => 83,
            Rules::MW => 84,
        }
    }

    /// The production that the parsing tables name `i`.
    pub open spec fn of_index(i: nat) -> Option<Rules> {
        if i == 0 {
            Some(Rules::P)
        } else if i == 1 {
            Some(Rules::LDE_LDE)
        } else if i == 2 {
            Some(Rules::LDE_DE)
        } else if i == 3 {
            Some(Rules::DE_DF)
        } else if i == 4 {
            Some(Rules::DE_DT)
        } else if i == 5 {
            Some(Rules::T_INT)
        } else if i == 6 {
            Some(Rules::T_CHAR)
        } else if i == 7 {
            Some(Rules::T_BOOL)
        } else if i == 8 {
            Some(Rules::T_STRING)
        } else if i == 9 {
            Some(Rules::T_IDU)
        } else if i == 10 {
            Some(Rules::DT_ARRAY)
        } else if i == 11 {
            Some(Rules::DT_STRUCT)
        } else if i == 12 {
            Some(Rules::DT_ALIAS)
        } else if i == 13 {
            Some(Rules::DC_DC)
        } else if i == 14 {
            Some(Rules::DC_LI)
        } else if i == 15 {
            Some(Rules::DF)
        } else if i == 16 {
            Some(Rules::LP_LP)
        } else if i == 17 {
            Some(Rules::LP_IDD)
        } else if i == 18 {
            Some(Rules::B)
        } else if i == 19 {
            Some(Rules::LDV_LDV)
        } else if i == 20 {
            Some(Rules::LDV_DV)
        } else if i == 21 {
            Some(Rules::LS_LS)
        } else if i == 22 {
            Some(Rules::LS_S)
        } else if i == 23 {
            Some(Rules::DV)
        } else if i == 24 {
            Some(Rules::LI_LI)
        } else if i == 25 {
            Some(Rules::LI_IDD)
        } else if i == 26 {
            Some(Rules::S_IF)
        } else if i == 27 {
            Some(Rules::S_IF_ELSE)
        } else if i == 28 {
            Some(Rules::S_WHILE)
        } else if i == 29 {
            Some(Rules::S_DO_WHILE)
        } else if i == 30 {
            Some(Rules::S_NB)
        } else if i == 31 {
            Some(Rules::S_LV)
        } else if i == 32 {
            Some(Rules::S_BREAK)
        } else if i == 33 {
            Some(Rules::S_CONTINUE)
        } else if i == 34 {
            Some(Rules::E_AND)
        } else if i == 35 {
            Some(Rules::E_OR)
        } else if i == 36 {
            Some(Rules::E_L)
        } else if i == 37 {
            Some(Rules::L_LESS_THAN)
        } else if i == 38 {
            Some(Rules::L_GREATER_THAN)
        } else if i == 39 {
            Some(Rules::L_LESS_EQUAL)
        } else if i == 40 {
            Some(Rules::L_GREATER_EQUAL)
        } else if i == 41 {
            Some(Rules::L_EQUAL_EQUAL)
        } else if i == 42 {
            Some(Rules::L_NOT_EQUAL)
        } else if i == 43 {
            Some(Rules::L_R)
        } else if i == 44 {
            Some(Rules::R_PLUS)
        } else if i == 45 {
            Some(Rules::R_MINUS)
        } else if i == 46 {
            Some(Rules::R_Y)
        } else if i == 47 {
            Some(Rules::Y_TIMES)
        } else if i == 48 {
            Some(Rules::Y_DIVIDE)
        } else if i == 49 {
            Some(Rules::Y_F)
        } else if i == 50 {
            Some(Rules::F_LV)
        } else if i == 51 {
            Some(Rules::F_PLUSPLUS)
        } else if i == 52 {
            Some(Rules::F_MINUSMINUS)
        } else if i == 53 {
            Some(Rules::F_LV_PLUSPLUS)
        } else if i == 54 {
            Some(Rules::F_LV_MINUSMINUS)
        } else if i == 55 {
            Some(Rules::F_PAR_E_PAR)
        } else if i == 56 {
            Some(Rules::F_FUNC_CALL)
        } else if i == 57 {
            Some(Rules::F_FUNC_CALL_EMPTY)
        } else if i == 58 {
            Some(Rules::F_NEGATIVE)
        } else if i == 59 {
            Some(Rules::F_NOT)
        } else if i == 60 {
            Some(Rules::F_TRUE)
        } else if i == 61 {
            Some(Rules::F_FALSE)
        } else if i == 62 {
            Some(Rules::F_C)
        } else if i == 63 {
            Some(Rules::F_STR)
        } else if i == 64 {
            Some(Rules::F_NUM)
        } else if i == 65 {
            Some(Rules::LE_LE)
        } else if i == 66 {
            Some(Rules::LE_E)
        } else if i == 67 {
            Some(Rules::LV_STRUCT)
        } else if i == 68 {
            Some(Rules::LV_ARR)
        } else if i == 69 {
            Some(Rules::LV_IDU)
        } else if i == 70 {
            Some(Rules::IDD)
        } else if i == 71 {
            Some(Rules::IDU)
        } else if i == 72 {
            Some(Rules::ID)
        } else if i == 73 {
            Some(Rules::TRUE)
        } else if i == 74 {
            Some(Rules::FALSE)
        } else if i == 75 {
            Some(Rules::C)
        } else if i == 76 {
            Some(Rules::STR)
        } else if i == 77 {
            Some(Rules::NUM)
        } else if i == 78 {
            Some(Rules::NB)
        } else if i == 79 {
            Some(Rules::NF)
        } else if i == 80 {
            Some(Rules::MF)
        } else if i == 81 {
            Some(Rules::MC)
        } else if i == 82 {
            Some(Rules::MT)
        } else if i == 83 {
            Some(Rules::ME)
        } else if i == 84 {
            Some(Rules::MW)
        } else {
            None
        }
    }

    /// The nonterminal that this production derives; the attribute that its
    /// action synthesizes belongs to it.
    pub open spec fn left(self) -> Token {
        match self {
            Rules::P => Token::P,
            Rules::LDE_LDE => Token::LDE,
            Rules::LDE_DE => Token::LDE,
            Rules::DE_DF => Token::DE,
            Rules::DE_DT => Token::DE,
            Rules::T_INT => Token::T,
            Rules::T_CHAR => Token::T,
            Rules::T_BOOL => Token::T,
            Rules::T_STRING => Token::T,
            Rules::T_IDU => Token::T,
            Rules::DT_ARRAY => Token::DT,
            Rules::DT_STRUCT => Token::DT,
            Rules::DT_ALIAS => Token::DT,
            Rules::DC_DC => Token::DC,
            Rules::DC_LI => Token::DC,
            Rules::DF => Token::DF,
            Rules::LP_LP => Token::LP,
            Rules::LP_IDD => Token::LP,
            Rules::B => Token::B,
            Rules::LDV_LDV => Token::LDV,
            Rules::LDV_DV => Token::LDV,
            Rules::LS_LS => Token::LS,
            Rules::LS_S => Token::LS,
            Rules::DV => Token::DV,
            Rules::LI_LI => Token::LI,
            Rules::LI_IDD => Token::LI,
            Rules::S_IF => Token::S,
            Rules::S_IF_ELSE => Token::S,
            Rules::S_WHILE => Token::S,
            Rules::S_DO_WHILE => Token::S,
            Rules::S_NB => Token::S,
            Rules::S_LV => Token::S,
            Rules::S_BREAK => Token::S,
            Rules::S_CONTINUE => Token::S,
            Rules::E_AND => Token::E,
            Rules::E_OR => Token::E,
            Rules::E_L => Token::E,
            Rules::L_LESS_THAN => Token::L,
            Rules::L_GREATER_THAN => Token::L,
            Rules::L_LESS_EQUAL => Token::L,
            Rules::L_GREATER_EQUAL => Token::L,
            Rules::L_EQUAL_EQUAL => Token::L,
            Rules::L_NOT_EQUAL => Token::L,
            Rules::L_R => Token::L,
            Rules::R_PLUS => Token::R,
            Rules::R_MINUS => Token::R,
            Rules::R_Y => Token::R,
            Rules::Y_TIMES => Token::Y,
            Rules::Y_DIVIDE => Token::Y,
            Rules::Y_F => Token::Y,
            Rules::F_LV => Token::F,
            Rules::F_PLUSPLUS => Token::F,
            Rules::F_MINUSMINUS => Token::F,
            Rules::F_LV_PLUSPLUS => Token::F,
            Rules::F_LV_MINUSMINUS => Token::F,
            Rules::F_PAR_E_PAR => Token::F,
            Rules::F_FUNC_CALL => Token::F,
            Rules::F_FUNC_CALL_EMPTY => Token::F,
            Rules::F_NEGATIVE => Token::F,
            Rules::F_NOT => Token::F,
            Rules::F_TRUE => Token::F,
            Rules::F_FALSE => Token::F,
            Rules::F_C => Token::F,
            Rules::F_STR => Token::F,
            Rules::F_NUM => Token::F,
            Rules::LE_LE => Token::LE,
            Rules::LE_E => Token::LE,
            Rules::LV_STRUCT => Token::LV,
            Rules::LV_ARR => Token::LV,
            Rules::LV_IDU => Token::LV,
            Rules::IDD => Token::IDD,
            Rules::IDU => Token::IDU,
            Rules::ID => Token::ID,
            Rules::TRUE => Token::TRUE,
            Rules::FALSE => Token::FALSE,
            Rules::C => Token::C,
            Rules::STR => Token::STR,
            Rules::NUM => Token::NUM,
            Rules::NB => Token::NB,
            Rules::NF => Token::NF,
            Rules::MF => Token::MF,
            Rules::MC => Token::MC,
            Rules::MT => Token::MT,
            Rules::ME => Token::ME,
            Rules::MW => Token::MW,
        }
    }

    /// The nonterminals whose attributes the action reads, in the order in
    /// which they lie on the attribute stack: those of the right-hand side,
    /// and below them what the action reads of its left context.
    pub open spec fn pattern(self) -> Seq<Token> {
        match self {
            Rules::P => seq![Token::LDE],
            Rules::LDE_LDE => seq![Token::LDE, Token::DE],
            Rules::LDE_DE => seq![Token::DE],
            Rules::DE_DF => seq![Token::DF],
            Rules::DE_DT => seq![Token::DT],
            Rules::T_INT => Seq::empty(),
            Rules::T_CHAR => Seq::empty(),
            Rules::T_BOOL => Seq::empty(),
            Rules::T_STRING => Seq::empty(),
            Rules::T_IDU => seq![Token::IDU],
            Rules::DT_ARRAY => seq![Token::IDD, Token::NUM, Token::T],
            Rules::DT_STRUCT => seq![Token::IDD, Token::NB, Token::DC],
            Rules::DT_ALIAS => seq![Token::IDD, Token::T],
            Rules::DC_DC => seq![Token::DC, Token::LI, Token::T],
            Rules::DC_LI => seq![Token::LI, Token::T],
            Rules::DF => seq![Token::IDD, Token::NF, Token::LP, Token::T, Token::MF, Token::B],
            Rules::LP_LP => seq![Token::LP, Token::IDD, Token::T],
            Rules::LP_IDD => seq![Token::IDD, Token::T],
            Rules::B => seq![Token::LDV, Token::LS],
            Rules::LDV_LDV => seq![Token::LDV, Token::DV],
            Rules::LDV_DV => seq![Token::DV],
            Rules::LS_LS => seq![Token::LS, Token::S],
            Rules::LS_S => seq![Token::S],
            Rules::DV => seq![Token::LI, Token::T],
            Rules::LI_LI => seq![Token::LI, Token::IDD],
            Rules::LI_IDD => seq![Token::IDD],
            Rules::S_IF => seq![Token::E, Token::MT, Token::S],
            Rules::S_IF_ELSE => seq![Token::E, Token::MT, Token::S, Token::ME, Token::S],
            Rules::S_WHILE => seq![Token::MW, Token::E, Token::MT, Token::S],
            Rules::S_DO_WHILE => seq![Token::MW, Token::S, Token::E],
            Rules::S_NB => seq![Token::NB, Token::B],
            Rules::S_LV => seq![Token::LV, Token::E],
            Rules::S_BREAK => Seq::empty(),
            Rules::S_CONTINUE => Seq::empty(),
            Rules::E_AND => seq![Token::E, Token::L],
            Rules::E_OR => seq![Token::E, Token::L],
            Rules::E_L => seq![Token::L],
            Rules::L_LESS_THAN => seq![Token::L, Token::R],
            Rules::L_GREATER_THAN => seq![Token::L, Token::R],
            Rules::L_LESS_EQUAL => seq![Token::L, Token::R],
            Rules::L_GREATER_EQUAL => seq![Token::L, Token::R],
            Rules::L_EQUAL_EQUAL => seq![Token::L, Token::R],
            Rules::L_NOT_EQUAL => seq![Token::L, Token::R],
            Rules::L_R => seq![Token::R],
            Rules::R_PLUS => seq![Token::R, Token::Y],
            Rules::R_MINUS => seq![Token::R, Token::Y],
            Rules::R_Y => seq![Token::Y],
            Rules::Y_TIMES => seq![Token::Y, Token::F],
            Rules::Y_DIVIDE => seq![Token::Y, Token::F],
            Rules::Y_F => seq![Token::F],
            Rules::F_LV => seq![Token::LV],
            Rules::F_PLUSPLUS => seq![Token::LV],
            Rules::F_MINUSMINUS => seq![Token::LV],
            Rules::F_LV_PLUSPLUS => seq![Token::LV],
            Rules::F_LV_MINUSMINUS => seq![Token::LV],
            Rules::F_PAR_E_PAR => seq![Token::E],
            Rules::F_FUNC_CALL => seq![Token::IDU, Token::MC, Token::LE],
            Rules::F_FUNC_CALL_EMPTY => seq![Token::IDU, Token::MC],
            Rules::F_NEGATIVE => seq![Token::F],
            Rules::F_NOT => seq![Token::F],
            Rules::F_TRUE => seq![Token::TRUE],
            Rules::F_FALSE => seq![Token::FALSE],
            Rules::F_C => seq![Token::C],
            Rules::F_STR => seq![Token::STR],
            Rules::F_NUM => seq![Token::NUM],
            Rules::LE_LE => seq![Token::LE, Token::E],
            Rules::LE_E => seq![Token::MC, Token::E],
            Rules::LV_STRUCT => seq![Token::LV, Token::ID],
            Rules::LV_ARR => seq![Token::LV, Token::E],
            Rules::LV_IDU => seq![Token::IDU],
            Rules::IDD => Seq::empty(),
            Rules::IDU => Seq::empty(),
            Rules::ID => Seq::empty(),
            Rules::TRUE => Seq::empty(),
            Rules::FALSE => Seq::empty(),
            Rules::C => Seq::empty(),
            Rules::STR => Seq::empty(),
            Rules::NUM => Seq::empty(),
            Rules::NB => Seq::empty(),
            Rules::NF => Seq::empty(),
            Rules::MF => seq![Token::IDD, Token::NF, Token::LP, Token::T],
            Rules::MC => seq![Token::IDU],
            Rules::MT => Seq::empty(),
            Rules::ME => Seq::empty(),
            Rules::MW => Seq::empty(),
        }
    }

    /// The number of nonterminals on the right-hand side: so many attributes
    /// a reduction takes off the attribute stack.
    pub open spec fn consumed(self) -> nat {
        match self {
            Rules::P => 1,
            Rules::LDE_LDE => 2,
            Rules::LDE_DE => 1,
            Rules::DE_DF => 1,
            Rules::DE_DT => 1,
            Rules::T_INT => 0,
            Rules::T_CHAR => 0,
            Rules::T_BOOL => 0,
            Rules::T_STRING => 0,
            Rules::T_IDU => 1,
            Rules::DT_ARRAY => 3,
            Rules::DT_STRUCT => 3,
            Rules::DT_ALIAS => 2,
            Rules::DC_DC => 3,
            Rules::DC_LI => 2,
            Rules::DF => 6,
            Rules::LP_LP => 3,
            Rules::LP_IDD => 2,
            Rules::B => 2,
            Rules::LDV_LDV => 2,
            Rules::LDV_DV => 1,
            Rules::LS_LS => 2,
            Rules::LS_S => 1,
            Rules::DV => 2,
            Rules::LI_LI => 2,
            Rules::LI_IDD => 1,
            Rules::S_IF => 3,
            Rules::S_IF_ELSE => 5,
            Rules::S_WHILE => 4,
            Rules::S_DO_WHILE => 3,
            Rules::S_NB => 2,
            Rules::S_LV => 2,
            Rules::S_BREAK => 0,
            Rules::S_CONTINUE => 0,
            Rules::E_AND => 2,
            Rules::E_OR => 2,
            Rules::E_L => 1,
            Rules::L_LESS_THAN => 2,
            Rules::L_GREATER_THAN => 2,
            Rules::L_LESS_EQUAL => 2,
            Rules::L_GREATER_EQUAL => 2,
            Rules::L_EQUAL_EQUAL => 2,
            Rules::L_NOT_EQUAL => 2,
            Rules::L_R => 1,
            Rules::R_PLUS => 2,
            Rules::R_MINUS => 2,
            Rules::R_Y => 1,
            Rules::Y_TIMES => 2,
            Rules::Y_DIVIDE => 2,
            Rules::Y_F => 1,
            Rules::F_LV => 1,
            Rules::F_PLUSPLUS => 1,
            Rules::F_MINUSMINUS => 1,
            Rules::F_LV_PLUSPLUS => 1,
            Rules::F_LV_MINUSMINUS => 1,
            Rules::F_PAR_E_PAR => 1,
            Rules::F_FUNC_CALL => 3,
            Rules::F_FUNC_CALL_EMPTY => 2,
            Rules::F_NEGATIVE => 1,
            Rules::F_NOT => 1,
            Rules::F_TRUE => 1,
            Rules::F_FALSE => 1,
            Rules::F_C => 1,
            Rules::F_STR => 1,
            Rules::F_NUM => 1,
            Rules::LE_LE => 2,
            Rules::LE_E => 1,
            Rules::LV_STRUCT => 2,
            Rules::LV_ARR => 2,
            Rules::LV_IDU => 1,
            Rules::IDD => 0,
            Rules::IDU => 0,
            Rules::ID => 0,
            Rules::TRUE => 0,
            Rules::FALSE => 0,
            Rules::C => 0,
            Rules::STR => 0,
            Rules::NUM => 0,
            Rules::NB => 0,
            Rules::NF => 0,
            Rules::MF => 0,
            Rules::MC => 0,
            Rules::MT => 0,
            Rules::ME => 0,
            Rules::MW => 0,
        }
    }

    pub fn from_index(i: usize) -> (r: Option<Rules>)
        ensures
            r == Rules::of_index(i as nat),
    {
        match i {
            0 => Some(Rules::P),
            1 => Some(Rules::LDE_LDE),
            2 => Some(Rules::LDE_DE),
            3 => Some(Rules::DE_DF),
            4 => Some(Rules::DE_DT),
            5 => Some(Rules::T_INT),
            6 => Some(Rules::T_CHAR),
            7 => Some(Rules::T_BOOL),
            8 => Some(Rules::T_STRING),
            9 => Some(Rules::T_IDU),
            10 => Some(Rules::DT_ARRAY),
            11 => Some(Rules::DT_STRUCT),
            12 => Some(Rules::DT_ALIAS),
            13 => Some(Rules::DC_DC),
            14 => Some(Rules::DC_LI),
            15 => Some(Rules::DF),
            16 => Some(Rules::LP_LP),
            17 => Some(Rules::LP_IDD),
            18 => Some(Rules::B),
            19 => Some(Rules::LDV_LDV),
            20 => Some(Rules::LDV_DV),
            21 => Some(Rules::LS_LS),
            22 => Some(Rules::LS_S),
            23 => Some(Rules::DV),
            24 => Some(Rules::LI_LI),
            25 => Some(Rules::LI_IDD),
            26 => Some(Rules::S_IF),
            27 => Some(Rules::S_IF_ELSE),
            28 => Some(Rules::S_WHILE),
            29 => Some(Rules::S_DO_WHILE),
            30 => Some(Rules::S_NB),
            31 => Some(Rules::S_LV),
            32 => Some(Rules::S_BREAK),
            33 => Some(Rules::S_CONTINUE),
            34 => Some(Rules::E_AND),
            35 => Some(Rules::E_OR),
            36 => Some(Rules::E_L),
            37 => Some(Rules::L_LESS_THAN),
            38 => Some(Rules::L_GREATER_THAN),
            39 => Some(Rules::L_LESS_EQUAL),
            40 => Some(Rules::L_GREATER_EQUAL),
            41 => Some(Rules::L_EQUAL_EQUAL),
            42 => Some(Rules::L_NOT_EQUAL),
            43 => Some(Rules::L_R),
            44 => Some(Rules::R_PLUS),
            45 => Some(Rules::R_MINUS),
            46 => Some(Rules::R_Y),
            47 => Some(Rules::Y_TIMES),
            48 => Some(Rules::Y_DIVIDE),
            49 => Some(Rules::Y_F),
            50 => Some(Rules::F_LV),
            51 => Some(Rules::F_PLUSPLUS),
            52 => Some(Rules::F_MINUSMINUS),
            53 => Some(Rules::F_LV_PLUSPLUS),
            54 => Some(Rules::F_LV_MINUSMINUS),
            55 => Some(Rules::F_PAR_E_PAR),
            56 => Some(Rules::F_FUNC_CALL),
            57 => Some(Rules::F_FUNC_CALL_EMPTY),
            58 => Some(Rules::F_NEGATIVE),
            59 => Some(Rules::F_NOT),
            60 => Some(Rules::F_TRUE),
            61 => Some(Rules::F_FALSE),
            62 => Some(Rules::F_C),
            63 => Some(Rules::F_STR),
            64 => Some(Rules::F_NUM),
            65 => Some(Rules::LE_LE),
            66 => Some(Rules::LE_E),
            67 => Some(Rules::LV_STRUCT),
            68 => Some(Rules::LV_ARR),
            69 => Some(Rules::LV_IDU),
            70 => Some(Rules::IDD),
            71 => Some(Rules::IDU),
            72 => Some(Rules::ID),
            73 => Some(Rules::TRUE),
            74 => Some(Rules::FALSE),
            75 => Some(Rules::C),
            76 => Some(Rules::STR),
            77 => Some(Rules::NUM),
            78 => Some(Rules::NB),
            79 => Some(Rules::NF),
            80 => Some(Rules::MF),
            81 => Some(Rules::MC),
            82 => Some(Rules::MT),
            83 => Some(Rules::ME),
            84 => Some(Rules::MW),
            _ => None,
        }
    }

    pub fn left_symbol(&self) -> (r: Token)
        ensures
            r == self.left(),
    {
        match self {
            Rules::P => Token::P,
            Rules::LDE_LDE => Token::LDE,
            Rules::LDE_DE => Token::LDE,
            Rules::DE_DF => Token::DE,
            Rules::DE_DT => Token::DE,
            Rules::T_INT => Token::T,
            Rules::T_CHAR => Token::T,
            Rules::T_BOOL => Token::T,
            Rules::T_STRING => Token::T,
            Rules::T_IDU => Token::T,
            Rules::DT_ARRAY => Token::DT,
            Rules::DT_STRUCT => Token::DT,
            Rules::DT_ALIAS => Token::DT,
            Rules::DC_DC => Token::DC,
            Rules::DC_LI => Token::DC,
            Rules::DF => Token::DF,
            Rules::LP_LP => Token::LP,
            Rules::LP_IDD => Token::LP,
            Rules::B => Token::B,
            Rules::LDV_LDV => Token::LDV,
            Rules::LDV_DV => Token::LDV,
            Rules::LS_LS => Token::LS,
            Rules::LS_S => Token::LS,
            Rules::DV => Token::DV,
            Rules::LI_LI => Token::LI,
            Rules::LI_IDD => Token::LI,
            Rules::S_IF => Token::S,
            Rules::S_IF_ELSE => Token::S,
            Rules::S_WHILE => Token::S,
            Rules::S_DO_WHILE => Token::S,
            Rules::S_NB => Token::S,
            Rules::S_LV => Token::S,
            Rules::S_BREAK => Token::S,
            Rules::S_CONTINUE => Token::S,
            Rules::E_AND => Token::E,
            Rules::E_OR => Token::E,
            Rules::E_L => Token::E,
            Rules::L_LESS_THAN => Token::L,
            Rules::L_GREATER_THAN => Token::L,
            Rules::L_LESS_EQUAL => Token::L,
            Rules::L_GREATER_EQUAL => Token::L,
            Rules::L_EQUAL_EQUAL => Token::L,
            Rules::L_NOT_EQUAL => Token::L,
            Rules::L_R => Token::L,
            Rules::R_PLUS => Token::R,
            Rules::R_MINUS => Token::R,
            Rules::R_Y => Token::R,
            Rules::Y_TIMES => Token::Y,
            Rules::Y_DIVIDE => Token::Y,
            Rules::Y_F => Token::Y,
            Rules::F_LV => Token::F,
            Rules::F_PLUSPLUS => Token::F,
            Rules::F_MINUSMINUS => Token::F,
            Rules::F_LV_PLUSPLUS => Token::F,
            Rules::F_LV_MINUSMINUS => Token::F,
            Rules::F_PAR_E_PAR => Token::F,
            Rules::F_FUNC_CALL => Token::F,
            Rules::F_FUNC_CALL_EMPTY => Token::F,
            Rules::F_NEGATIVE => Token::F,
            Rules::F_NOT => Token::F,
            Rules::F_TRUE => Token::F,
            Rules::F_FALSE => Token::F,
            Rules::F_C => Token::F,
            Rules::F_STR => Token::F,
            Rules::F_NUM => Token::F,
            Rules::LE_LE => Token::LE,
            Rules::LE_E => Token::LE,
            Rules::LV_STRUCT => Token::LV,
            Rules::LV_ARR => Token::LV,
            Rules::LV_IDU => Token::LV,
            Rules::IDD => Token::IDD,
            Rules::IDU => Token::IDU,
            Rules::ID => Token::ID,
            Rules::TRUE => Token::TRUE,
            Rules::FALSE => Token::FALSE,
            Rules::C => Token::C,
            Rules::STR => Token::STR,
            Rules::NUM => Token::NUM,
            Rules::NB => Token::NB,
            Rules::NF => Token::NF,
            Rules::MF => Token::MF,
            Rules::MC => Token::MC,
            Rules::MT => Token::MT,
            Rules::ME => Token::ME,
            Rules::MW => Token::MW,
        }
    }

    pub fn expected(&self) -> (r: Vec<Token>)
        ensures
            r@ == self.pattern(),
    {
        let r = match self {
            Rules::P => vec![Token::LDE],
            Rules::LDE_LDE => vec![Token::LDE, Token::DE],
            Rules::LDE_DE => vec![Token::DE],
            Rules::DE_DF => vec![Token::DF],
            Rules::DE_DT => vec![Token::DT],
            Rules::T_INT => Vec::new(),
            Rules::T_CHAR => Vec::new(),
            Rules::T_BOOL => Vec::new(),
            Rules::T_STRING => Vec::new(),
            Rules::T_IDU => vec![Token::IDU],
            Rules::DT_ARRAY => vec![Token::IDD, Token::NUM, Token::T],
            Rules::DT_STRUCT => vec![Token::IDD, Token::NB, Token::DC],
            Rules::DT_ALIAS => vec![Token::IDD, Token::T],
            Rules::DC_DC => vec![Token::DC, Token::LI, Token::T],
            Rules::DC_LI => vec![Token::LI, Token::T],
            Rules::DF => vec![Token::IDD, Token::NF, Token::LP, Token::T, Token::MF, Token::B],
            Rules::LP_LP => vec![Token::LP, Token::IDD, Token::T],
            Rules::LP_IDD => vec![Token::IDD, Token::T],
            Rules::B => vec![Token::LDV, Token::LS],
            Rules::LDV_LDV => vec![Token::LDV, Token::DV],
            Rules::LDV_DV => vec![Token::DV],
            Rules::LS_LS => vec![Token::LS, Token::S],
            Rules::LS_S => vec![Token::S],
            Rules::DV => vec![Token::LI, Token::T],
            Rules::LI_LI => vec![Token::LI, Token::IDD],
            Rules::LI_IDD => vec![Token::IDD],
            Rules::S_IF => vec![Token::E, Token::MT, Token::S],
            Rules::S_IF_ELSE => vec![Token::E, Token::MT, Token::S, Token::ME, Token::S],
            Rules::S_WHILE => vec![Token::MW, Token::E, Token::MT, Token::S],
            Rules::S_DO_WHILE => vec![Token::MW, Token::S, Token::E],
            Rules::S_NB => vec![Token::NB, Token::B],
            Rules::S_LV => vec![Token::LV, Token::E],
            Rules::S_BREAK => Vec::new(),
            Rules::S_CONTINUE => Vec::new(),
            Rules::E_AND => vec![Token::E, Token::L],
            Rules::E_OR => vec![Token::E, Token::L],
            Rules::E_L => vec![Token::L],
            Rules::L_LESS_THAN => vec![Token::L, Token::R],
            Rules::L_GREATER_THAN => vec![Token::L, Token::R],
            Rules::L_LESS_EQUAL => vec![Token::L, Token::R],
            Rules::L_GREATER_EQUAL => vec![Token::L, Token::R],
            Rules::L_EQUAL_EQUAL => vec![Token::L, Token::R],
            Rules::L_NOT_EQUAL => vec![Token::L, Token::R],
            Rules::L_R => vec![Token::R],
            Rules::R_PLUS => vec![Token::R, Token::Y],
            Rules::R_MINUS => vec![Token::R, Token::Y],
            Rules::R_Y => vec![Token::Y],
            Rules::Y_TIMES => vec![Token::Y, Token::F],
            Rules::Y_DIVIDE => vec![Token::Y, Token::F],
            Rules::Y_F => vec![Token::F],
            Rules::F_LV => vec![Token::LV],
            Rules::F_PLUSPLUS => vec![Token::LV],
            Rules::F_MINUSMINUS => vec![Token::LV],
            Rules::F_LV_PLUSPLUS => vec![Token::LV],
            Rules::F_LV_MINUSMINUS => vec![Token::LV],
            Rules::F_PAR_E_PAR => vec![Token::E],
            Rules::F_FUNC_CALL => vec![Token::IDU, Token::MC, Token::LE],
            Rules::F_FUNC_CALL_EMPTY => vec![Token::IDU, Token::MC],
            Rules::F_NEGATIVE => vec![Token::F],
            Rules::F_NOT => vec![Token::F],
            Rules::F_TRUE => vec![Token::TRUE],
            Rules::F_FALSE => vec![Token::FALSE],
            Rules::F_C => vec![Token::C],
            Rules::F_STR => vec![Token::STR],
            Rules::F_NUM => vec![Token::NUM],
            Rules::LE_LE => vec![Token::LE, Token::E],
            Rules::LE_E => vec![Token::MC, Token::E],
            Rules::LV_STRUCT => vec![Token::LV, Token::ID],
            Rules::LV_ARR => vec![Token::LV, Token::E],
            Rules::LV_IDU => vec![Token::IDU],
            Rules::IDD => Vec::new(),
            Rules::IDU => Vec::new(),
            Rules::ID => Vec::new(),
            Rules::TRUE => Vec::new(),
            Rules::FALSE => Vec::new(),
            Rules::C => Vec::new(),
            Rules::STR => Vec::new(),
            Rules::NUM => Vec::new(),
            Rules::NB => Vec::new(),
            Rules::NF => Vec::new(),
            Rules::MF => vec![Token::IDD, Token::NF, Token::LP, Token::T],
            Rules::MC => vec![Token::IDU],
            Rules::MT => Vec::new(),
            Rules::ME => Vec::new(),
            Rules::MW => Vec::new(),
        };
        assert(r@ =~= self.pattern());
        r
    }

    pub fn taken(&self) -> (r: usize)
        ensures
            r == self.consumed(),
            r <= self.pattern().len(),
    {
        match self {
            Rules::P => 1,
            Rules::LDE_LDE => 2,
            Rules::LDE_DE => 1,
            Rules::DE_DF => 1,
            Rules::DE_DT => 1,
            Rules::T_INT => 0,
            Rules::T_CHAR => 0,
            Rules::T_BOOL => 0,
            Rules::T_STRING => 0,
            Rules::T_IDU => 1,
            Rules::DT_ARRAY => 3,
            Rules::DT_STRUCT => 3,
            Rules::DT_ALIAS => 2,
            Rules::DC_DC => 3,
            Rules::DC_LI => 2,
            Rules::DF => 6,
            Rules::LP_LP => 3,
            Rules::LP_IDD => 2,
            Rules::B => 2,
            Rules::LDV_LDV => 2,
            Rules::LDV_DV => 1,
            Rules::LS_LS => 2,
            Rules::LS_S => 1,
            Rules::DV => 2,
            Rules::LI_LI => 2,
            Rules::LI_IDD => 1,
            Rules::S_IF => 3,
            Rules::S_IF_ELSE => 5,
            Rules::S_WHILE => 4,
            Rules::S_DO_WHILE => 3,
            Rules::S_NB => 2,
            Rules::S_LV => 2,
            Rules::S_BREAK => 0,
            Rules::S_CONTINUE => 0,
            Rules::E_AND => 2,
            Rules::E_OR => 2,
            Rules::E_L => 1,
            Rules::L_LESS_THAN => 2,
            Rules::L_GREATER_THAN => 2,
            Rules::L_LESS_EQUAL => 2,
            Rules::L_GREATER_EQUAL => 2,
            Rules::L_EQUAL_EQUAL => 2,
            Rules::L_NOT_EQUAL => 2,
            Rules::L_R => 1,
            Rules::R_PLUS => 2,
            Rules::R_MINUS => 2,
            Rules::R_Y => 1,
            Rules::Y_TIMES => 2,
            Rules::Y_DIVIDE => 2,
            Rules::Y_F => 1,
            Rules::F_LV => 1,
            Rules::F_PLUSPLUS => 1,
            Rules::F_MINUSMINUS => 1,
            Rules::F_LV_PLUSPLUS => 1,
            Rules::F_LV_MINUSMINUS => 1,
            Rules::F_PAR_E_PAR => 1,
            Rules::F_FUNC_CALL => 3,
            Rules::F_FUNC_CALL_EMPTY => 2,
            Rules::F_NEGATIVE => 1,
            Rules::F_NOT => 1,
            Rules::F_TRUE => 1,
            Rules::F_FALSE => 1,
            Rules::F_C => 1,
            Rules::F_STR => 1,
            Rules::F_NUM => 1,
            Rules::LE_LE => 2,
            Rules::LE_E => 1,
            Rules::LV_STRUCT => 2,
            Rules::LV_ARR => 2,
            Rules::LV_IDU => 1,
            Rules::IDD => 0,
            Rules::IDU => 0,
            Rules::ID => 0,
            Rules::TRUE => 0,
            Rules::FALSE => 0,
            Rules::C => 0,
            Rules::STR => 0,
            Rules::NUM => 0,
            Rules::NB => 0,
            Rules::NF => 0,
            Rules::MF => 0,
            Rules::MC => 0,
            Rules::MT => 0,
            Rules::ME => 0,
            Rules::MW => 0,
        }
    }
}

/// The tables name each production by its own number, and every number
/// below [`RULE_COUNT`] names one.
pub proof fn lemma_rule_index(rule: Rules, i: nat)
    ensures
        Rules::of_index(rule.index()) == Some(rule),
        rule.index() < RULE_COUNT,
        i < RULE_COUNT <==> Rules::of_index(i) is Some,
        Rules::of_index(i) is Some ==> Rules::of_index(i)->Some_0.index() == i,
{
}

} // verus!
