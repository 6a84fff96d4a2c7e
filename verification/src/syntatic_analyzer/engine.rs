use crate::syntatic_analyzer::actions::{reduce, Semantics};
use crate::syntatic_analyzer::errors::AnalysisError;
use crate::syntatic_analyzer::rules::Rules;
use crate::syntatic_analyzer::tables::{TablesView, ACCEPTING_STATE};
use crate::syntatic_analyzer::terminals::{lift, TokenView};
use crate::token::scan;
use vstd::prelude::*;

verus! {

/// The most moves that one analysis makes. An automaton that has not
/// accepted by then is stopped.
pub const STEP_LIMIT: usize = usize::MAX;

/// What the automaton itself goes by: it knows nothing of attributes and scopes.
pub struct Parse {
    /// The states, the start state first.
    pub states: Seq<usize>,
    /// The number of characters of the text that the scanner has behind it.
    pub pos: nat,
    /// The terminal that the automaton looks at.
    pub lookahead: TokenView,
    /// The text of the last terminal that carried one.
    pub lexeme: Seq<char>,
}

/// A configuration of the analyser.
pub struct Config {
    pub parse: Parse,
    pub semantics: Semantics,
}

/// A move of the automaton.
pub enum Move {
    /// The lookahead is read; the automaton goes on from here.
    Shift(Parse),
    /// A reduction by this production, whose action sees this text. The
    /// automaton goes on from the given place, unless the table has no
    /// state for it to go to.
    Reduce(Rules, Seq<char>, Option<Parse>),
    /// The automaton cannot go on.
    Fail,
}

/// The text that the semantic actions see while the automaton looks at
/// `lookahead`: that of the lookahead if it carries one, else the last
/// one carried.
pub open spec fn staged(lexeme: Seq<char>, lookahead: TokenView) -> Seq<char> {
    match lookahead.lexeme() {
        Some(text) => text,
        None => lexeme,
    }
}

/// The states after a reduction by production `rule`: as many states
/// as its right-hand side has symbols leave the stack, and the state
/// follows that the table gives for the state then on top and the
/// nonterminal on the left-hand side. The start state never leaves.
pub open spec fn goto(tables: TablesView, states: Seq<usize>, rule: nat) -> Option<Seq<usize>> {
    if rule >= tables.rule_len.len() || rule >= tables.rule_left.len() {
        None
    } else if tables.rule_len[rule as int] >= states.len() {
        None
    } else {
        let below = states.take(states.len() - tables.rule_len[rule as int]);
        let target = tables.entry(below.last() as int, tables.rule_left[rule as int].id() as int);
        if target > 0 {
            Some(below.push(target as usize))
        } else {
            None
        }
    }
}

/// The move that the action table asks for. A positive entry is the
/// state to shift to; a negative entry `-(r + 1)` asks for a reduction by
/// production `r`; with 0, and with a number that names no production,
/// the automaton fails.
pub open spec fn advance(tables: TablesView, text: Seq<char>, p: Parse) -> Move {
    if p.states.len() == 0 {
        Move::Fail
    } else {
        let action = tables.entry(p.states.last() as int, p.lookahead.id() as int);
        let lexeme = staged(p.lexeme, p.lookahead);
        if action > 0 {
            let next = scan(text, p.pos as int);
            Move::Shift(
                Parse {
                    states: p.states.push(action as usize),
                    pos: next.end as nat,
                    lookahead: lift(next.token),
                    lexeme,
                },
            )
        } else if action < 0 {
            match Rules::of_index((-action - 1) as nat) {
                Some(rule) => Move::Reduce(
                    rule,
                    lexeme,
                    match goto(tables, p.states, (-action - 1) as nat) {
                        Some(states) => Some(
                            Parse { states, pos: p.pos, lookahead: p.lookahead, lexeme },
                        ),
                        None => None,
                    },
                ),
                None => Move::Fail,
            }
        } else {
            Move::Fail
        }
    }
}

/// One move of the analyser. A reduction runs its semantic action first
/// and goes to the next state only then.
pub open spec fn step(tables: TablesView, text: Seq<char>, c: Config) -> Result<
    Config,
    AnalysisError,
> {
    match advance(tables, text, c.parse) {
        Move::Shift(parse) => Ok(Config { parse, semantics: c.semantics }),
        Move::Reduce(rule, lexeme, after) => match reduce(rule, lexeme, c.semantics) {
            Ok(semantics) => match after {
                Some(parse) => Ok(Config { parse, semantics }),
                None => Err(AnalysisError::SyntaxError),
            },
            Err(e) => Err(e),
        },
        Move::Fail => Err(AnalysisError::SyntaxError),
    }
}

/// Whether the automaton has accepted.
pub open spec fn accepting(p: Parse) -> bool {
    p.states.len() > 0 && p.states.last() == ACCEPTING_STATE
}

/// The analysis from configuration `c` on, with at most `fuel` moves:
/// the configuration in which the automaton accepts, or the first
/// violation. An automaton that is out of moves fails as one that cannot
/// go on.
pub open spec fn run(tables: TablesView, text: Seq<char>, c: Config, fuel: nat) -> Result<
    Config,
    AnalysisError,
>
    decreases fuel,
{
    if fuel == 0 {
        Err(AnalysisError::SyntaxError)
    } else {
        match step(tables, text, c) {
            Ok(next) => if accepting(next.parse) {
                Ok(next)
            } else {
                run(tables, text, next, (fuel - 1) as nat)
            },
            Err(e) => Err(e),
        }
    }
}

/// Where the automaton begins on `text` with these states and this staged
/// text: it looks at the first token.
pub open spec fn start(text: Seq<char>, states: Seq<usize>, lexeme: Seq<char>) -> Parse {
    let first = scan(text, 0);
    Parse { states, pos: first.end as nat, lookahead: lift(first.token), lexeme }
}

/// One reduction of a derivation: the production, and the text that its action sees.
pub struct Reduction {
    pub rule: Rules,
    pub lexeme: Seq<char>,
}

/// The reductions that the automaton makes from `p` on within `fuel`
/// moves, in their order, until it accepts or fails. What the semantic
/// actions say has no part in it.
pub open spec fn derivation(tables: TablesView, text: Seq<char>, p: Parse, fuel: nat) -> Seq<
    Reduction,
>
    decreases fuel,
{
    if fuel == 0 {
        Seq::empty()
    } else {
        match advance(tables, text, p) {
            Move::Shift(next) => if accepting(next) {
                Seq::empty()
            } else {
                derivation(tables, text, next, (fuel - 1) as nat)
            },
            Move::Reduce(rule, lexeme, after) => {
                let this = seq![Reduction { rule, lexeme }];
                match after {
                    Some(next) => if accepting(next) {
                        this
                    } else {
                        this + derivation(tables, text, next, (fuel - 1) as nat)
                    },
                    None => this,
                }
            },
            Move::Fail => Seq::empty(),
        }
    }
}

/// Whether the automaton accepts from `p` on within `fuel` moves: whether
/// the rest of the text is in the language of the grammar.
pub open spec fn recognizes(tables: TablesView, text: Seq<char>, p: Parse, fuel: nat) -> bool
    decreases fuel,
{
    if fuel == 0 {
        false
    } else {
        match advance(tables, text, p) {
            Move::Shift(next) => accepting(next) || recognizes(
                tables,
                text,
                next,
                (fuel - 1) as nat,
            ),
            Move::Reduce(_, _, Some(next)) => accepting(next) || recognizes(
                tables,
                text,
                next,
                (fuel - 1) as nat,
            ),
            _ => false,
        }
    }
}

/// The semantic actions of a sequence of reductions, one after the
/// other: the attributes and scopes that they leave, or the first violation.
pub open spec fn check(reductions: Seq<Reduction>, s: Semantics) -> Result<
    Semantics,
    AnalysisError,
>
    decreases reductions.len(),
{
    if reductions.len() == 0 {
        Ok(s)
    } else {
        match reduce(reductions[0].rule, reductions[0].lexeme, s) {
            Ok(next) => check(reductions.drop_first(), next),
            Err(e) => Err(e),
        }
    }
}

} // verus!
