use crate::syntatic_analyzer::nonterminals::Token;
use vstd::prelude::*;

verus! {

/// The state in which the automaton starts.
pub const START_STATE: usize = 0;

/// The state in which the automaton accepts: the one that it reaches from
/// the start state once the whole program is derived.
pub const ACCEPTING_STATE: usize = 1;

/// Mathematical model of [`GrammarTables`].
pub struct TablesView {
    /// One row for each state, one column for each symbol: nonterminals
    /// first, then terminals.
    pub action: Seq<Seq<i32>>,
    /// For each production, the number of symbols on its right-hand side.
    pub rule_len: Seq<usize>,
    /// For each production, the nonterminal on its left-hand side.
    pub rule_left: Seq<Token>,
}

impl TablesView {
    /// The entry of the action table for `state` and the symbol with the
    /// id `symbol`. A positive entry is the state to go to, by a shift if
    /// the symbol is a terminal; a negative entry `-(r + 1)` asks for a
    /// reduction by production `r`; 0 is an error, and so is every place
    /// that the table does not have.
    pub open spec fn entry(self, state: int, symbol: int) -> int {
        if 0 <= state < self.action.len() && 0 <= symbol < self.action[state].len() {
            self.action[state][symbol] as int
        } else {
            0
        }
    }
}

/// The rows of an action table as sequences.
pub open spec fn rows_view(rows: Seq<Vec<i32>>) -> Seq<Seq<i32>> {
    Seq::new(rows.len(), |i: int| rows[i]@)
}

/// The parsing tables of an LR automaton for the grammar, which are made
/// elsewhere and handed to the analyser.
pub struct GrammarTables {
    action: Vec<Vec<i32>>,
    rule_len: Vec<usize>,
    rule_left: Vec<Token>,
}

impl View for GrammarTables {
    type V = TablesView;

    closed spec fn view(&self) -> TablesView {
        TablesView {
            action: rows_view(self.action@),
            rule_len: self.rule_len@,
            rule_left: self.rule_left@,
        }
    }
}

impl GrammarTables {
    /// Tables with the given contents. They are taken as they are: the
    /// automaton treats whatever they lack as an error entry.
    pub fn new(action: Vec<Vec<i32>>, rule_len: Vec<usize>, rule_left: Vec<Token>) -> (r: Self)
        ensures
            r@ == (TablesView {
                action: rows_view(action@),
                rule_len: rule_len@,
                rule_left: rule_left@,
            }),
    {
        GrammarTables { action, rule_len, rule_left }
    }

    /// The entry of the action table for a state and a symbol's id.
    pub fn entry(&self, state: usize, symbol: usize) -> (r: i32)
        ensures
            r == self@.entry(state as int, symbol as int),
    {
        if state < self.action.len() {
            let row = &self.action[state];
            if symbol < row.len() {
                return row[symbol];
            }
        }
        0
    }

    /// The number of symbols on the right-hand side of a production.
    pub fn length(&self, rule: usize) -> (r: Option<usize>)
        ensures
            r == if rule < self@.rule_len.len() {
                Some(self@.rule_len[rule as int])
            } else {
                None
            },
    {
        if rule < self.rule_len.len() {
            Some(self.rule_len[rule])
        } else {
            None
        }
    }

    /// The nonterminal on the left-hand side of a production.
    pub fn left(&self, rule: usize) -> (r: Option<Token>)
        ensures
            r == if rule < self@.rule_left.len() {
                Some(self@.rule_left[rule as int])
            } else {
                None
            },
    {
        if rule < self.rule_left.len() {
            Some(self.rule_left[rule])
        } else {
            None
        }
    }
}

} // verus!
