//! The analyser: the automaton, the attribute stack, the scopes and the
//! semantic actions.

pub mod actions;
pub mod engine;
pub mod errors;
pub mod laws;
pub mod nonterminals;
pub mod rules;
pub mod scope_analyzer;
pub mod tables;
pub mod terminals;
pub mod token_stream;

use crate::syntatic_analyzer::actions::{
    aligned, argument, arguments, arithmetic, call, condition, declare_each, element_type,
    field_type, first_field, logical, named_type, param_types, reduce, relational, stored_type,
    synthesize, unary, Semantics,
};
use crate::syntatic_analyzer::engine::{goto, run, start, step, Config, Parse, STEP_LIMIT};
use crate::syntatic_analyzer::errors::{AnalysisError, Arity, Construct, Role};
use crate::syntatic_analyzer::nonterminals::{
    attribs_view, clone_types, lemma_function_view, lemma_struct_view, objects_view, types_view,
    AttribToken, AttribView, Kind, KindView, Object, ObjectView, Token, Type, TypeView,
};
use crate::syntatic_analyzer::rules::Rules;
use crate::syntatic_analyzer::scope_analyzer::{Block, ScopeAnalyzer};
use crate::syntatic_analyzer::tables::{GrammarTables, TablesView, ACCEPTING_STATE};
use crate::syntatic_analyzer::terminals::TokenView;
use crate::syntatic_analyzer::token_stream::TokenStream;
use crate::text::parse_numeral;
use vstd::prelude::*;

verus! {

/// Mathematical model of a [`StateMachine`].
pub struct MachineView {
    /// The text under analysis.
    pub program: Seq<char>,
    /// The text of the last token that carried one.
    pub lexeme: Seq<char>,
    /// The states of the automaton, the start state first.
    pub states: Seq<usize>,
    pub semantics: Semantics,
}

/// The analyser of one program: a shift-reduce automaton whose reductions
/// run the semantic actions.
pub struct StateMachine {
    program: String,
    token_sec: String,
    syntatic_stack: Vec<usize>,
    semantic_stack: Vec<AttribToken>,
    scope_analyzer: ScopeAnalyzer,
}

impl View for StateMachine {
    type V = MachineView;

    closed spec fn view(&self) -> MachineView {
        MachineView {
            program: self.program@,
            lexeme: self.token_sec@,
            states: self.syntatic_stack@,
            semantics: Semantics {
                attributes: attribs_view(self.semantic_stack@),
                scopes: self.scope_analyzer@,
            },
        }
    }
}

/// Whether `a` holds, in order, attributes of the nonterminals that the
/// action of `rule` reads, and no others.
spec fn matching(a: Seq<AttribView>, rule: Rules) -> bool {
    &&& a.len() == rule.pattern().len()
    &&& forall|i: int| 0 <= i < a.len() ==> (#[trigger] a[i]).symbol() == rule.pattern()[i]
}

/// Whether an action that returned `r` and left `scopes` did what `expected` says.
spec fn agrees(
    r: Result<AttribToken, AnalysisError>,
    scopes: Seq<Block>,
    expected: Result<(AttribView, Seq<Block>), AnalysisError>,
) -> bool {
    match expected {
        Ok((attribute, after)) => r is Ok && r->Ok_0@ == attribute && scopes == after,
        Err(e) => r == Err::<AttribToken, AnalysisError>(e),
    }
}

/// The attribute of a right-hand side with one nonterminal.
fn one(args: Vec<AttribToken>) -> (r: AttribToken)
    requires
        args@.len() == 1,
    ensures
        r@ == attribs_view(args@)[0],
{
    let mut args = args;
    args.pop().unwrap()
}

/// The attributes of a right-hand side with two nonterminals.
fn two(args: Vec<AttribToken>) -> (r: (AttribToken, AttribToken))
    requires
        args@.len() == 2,
    ensures
        r.0@ == attribs_view(args@)[0],
        r.1@ == attribs_view(args@)[1],
{
    let mut args = args;
    let second = args.pop().unwrap();
    let first = args.pop().unwrap();
    (first, second)
}

/// The attributes of a right-hand side with three nonterminals.
fn three(args: Vec<AttribToken>) -> (r: (AttribToken, AttribToken, AttribToken))
    requires
        args@.len() == 3,
    ensures
        r.0@ == attribs_view(args@)[0],
        r.1@ == attribs_view(args@)[1],
        r.2@ == attribs_view(args@)[2],
{
    let mut args = args;
    let third = args.pop().unwrap();
    let second = args.pop().unwrap();
    let first = args.pop().unwrap();
    (first, second, third)
}

/// The type that the attribute at place `i` carries.
fn type_at(args: &Vec<AttribToken>, i: usize) -> (r: Option<Type>)
    requires
        i < args@.len(),
    ensures
        match r {
            Some(t) => attribs_view(args@)[i as int].carries_type() && t@ == attribs_view(
                args@,
            )[i as int].ty(),
            None => !attribs_view(args@)[i as int].carries_type(),
        },
{
    match &args[i] {
        AttribToken::E(t) => Some(t.clone()),
        AttribToken::F(t) => Some(t.clone()),
        AttribToken::L(t) => Some(t.clone()),
        AttribToken::LV(t) => Some(t.clone()),
        AttribToken::R(t) => Some(t.clone()),
        AttribToken::T(t) => Some(t.clone()),
        AttribToken::Y(t) => Some(t.clone()),
        _ => None,
    }
}

/// Whether the top of the stack holds attributes of the nonterminals of `pattern`.
fn holds(stack: &Vec<AttribToken>, pattern: &Vec<Token>) -> (r: bool)
    ensures
        r == (pattern.len() <= stack.len() && forall|i: int|
            0 <= i < pattern.len() ==> (#[trigger] attribs_view(stack@)[stack.len()
                - pattern.len() + i]).symbol() == pattern@[i]),
{
    let n = stack.len();
    let k = pattern.len();
    if k > n {
        return false;
    }
    let mut i: usize = 0;
    while i < k
        invariant
            i <= k,
            k <= n,
            n == stack.len(),
            k == pattern.len(),
            forall|j: int|
                0 <= j < i ==> (#[trigger] attribs_view(stack@)[n - k + j]).symbol()
                    == pattern@[j],
        decreases k - i,
    {
        if stack[n - k + i].symbol() != pattern[i] {
            assert(attribs_view(stack@)[n - k + i].symbol() != pattern@[i as int]);
            return false;
        }
        i += 1;
    }
    true
}

/// Whether the type that an exec check returned is the one that the rule demands.
spec fn type_agrees(
    r: Result<Type, AnalysisError>,
    expected: Result<TypeView, AnalysisError>,
) -> bool {
    match expected {
        Ok(t) => r is Ok && r->Ok_0@ == t,
        Err(e) => r == Err::<Type, AnalysisError>(e),
    }
}

/// Whether `after` differs from `before` in the open blocks at most.
spec fn same_but_scopes(before: MachineView, after: MachineView) -> bool {
    &&& after.program == before.program
    &&& after.lexeme == before.lexeme
    &&& after.states == before.states
    &&& after.semantics.attributes == before.semantics.attributes
}

impl StateMachine {
    /// A machine that is about to analyse `program`: the automaton in its
    /// start state, no attribute yet, and the global block open and empty.
    pub fn new(program: String) -> (r: Self)
        ensures
            r@ == (MachineView {
                program: program@,
                lexeme: Seq::<char>::empty(),
                states: seq![0usize],
                semantics: Semantics {
                    attributes: Seq::<AttribView>::empty(),
                    scopes: seq![Seq::<ObjectView>::empty()],
                },
            }),
    {
        let mut syntatic_stack: Vec<usize> = Vec::new();
        syntatic_stack.push(0);
        let r = StateMachine {
            program,
            token_sec: String::new(),
            syntatic_stack,
            semantic_stack: Vec::new(),
            scope_analyzer: ScopeAnalyzer::new(),
        };
        assert(r@.states =~= seq![0usize]);
        assert(r@.semantics.attributes =~= Seq::<AttribView>::empty());
        r
    }

    /// The blocks that are open, with what they declare.
    pub fn scope_analyzer(&self) -> (r: &ScopeAnalyzer)
        ensures
            r@ == self@.semantics.scopes,
    {
        &self.scope_analyzer
    }

    /// Whether two types are the same: they are compared by structure.
    fn check_types(&self, t1: Type, t2: Type) -> (r: bool)
        ensures
            r == (t1@ == t2@),
    {
        if t1 == t2 {
            return true;
        }
        return false;
    }

    /// The condition of a conditional or of a loop.
    fn condition(&self, t: Type, construct: Construct) -> (r: Result<AttribToken, AnalysisError>)
        ensures
            match condition(t@, construct) {
                Ok(_) => r is Ok && r->Ok_0@ == AttribView::S,
                Err(e) => r == Err::<AttribToken, AnalysisError>(e),
            },
    {
        if !self.check_types(t, Type::Bool_) {
            return Err(AnalysisError::TypeMismatch(construct));
        }
        Ok(AttribToken::S)
    }

    /// The actions of the statements, which pass judgement on the types
    /// that their parts have synthesized.
    #[verifier::rlimit(50)]
    fn statement(&self, rule: Rules, args: Vec<AttribToken>) -> (r: Result<
        AttribToken,
        AnalysisError,
    >)
        requires
            matching(attribs_view(args@), rule),
            rule == Rules::S_IF || rule == Rules::S_IF_ELSE || rule == Rules::S_WHILE || rule
                == Rules::S_DO_WHILE || rule == Rules::S_LV,
        ensures
            agrees(
                r,
                self@.semantics.scopes,
                synthesize(rule, self@.lexeme, attribs_view(args@), self@.semantics.scopes),
            ),
    {
        let ghost a = attribs_view(args@);
        match rule {
            Rules::S_IF => {
                assert(a[0].symbol() == Rules::S_IF.pattern()[0]);
                match type_at(&args, 0) {
                    Some(t) => self.condition(t, Construct::If),
                    None => Err(AnalysisError::SyntaxError),
                }
            },
            Rules::S_IF_ELSE => {
                assert(a[0].symbol() == Rules::S_IF_ELSE.pattern()[0]);
                match type_at(&args, 0) {
                    Some(t) => self.condition(t, Construct::IfElse),
                    None => Err(AnalysisError::SyntaxError),
                }
            },
            Rules::S_WHILE => {
                assert(a[1].symbol() == Rules::S_WHILE.pattern()[1]);
                match type_at(&args, 1) {
                    Some(t) => self.condition(t, Construct::While),
                    None => Err(AnalysisError::SyntaxError),
                }
            },
            Rules::S_DO_WHILE => {
                assert(a[2].symbol() == Rules::S_DO_WHILE.pattern()[2]);
                match type_at(&args, 2) {
                    Some(t) => self.condition(t, Construct::DoWhile),
                    None => Err(AnalysisError::SyntaxError),
                }
            },
            _ => {
                assert(a[0].symbol() == Rules::S_LV.pattern()[0]);
                assert(a[1].symbol() == Rules::S_LV.pattern()[1]);
                let (lv, e) = two(args);
                match (lv.into_type(), e.into_type()) {
                    (Some(type_lv), Some(type_e)) => {
                        if !self.check_types(type_e, type_lv) {
                            return Err(AnalysisError::TypeMismatch(Construct::Assignment));
                        }
                        Ok(AttribToken::S)
                    },
                    _ => Err(AnalysisError::SyntaxError),
                }
            },
        }
    }

    /// `&&` and `||`.
    fn logical(&self, a: Type, b: Type, construct: Construct) -> (r: Result<Type, AnalysisError>)
        ensures
            type_agrees(r, logical(a@, b@, construct)),
    {
        if !self.check_types(b, Type::Bool_) {
            return Err(AnalysisError::InvalidOperandType(construct));
        }
        if !self.check_types(a, Type::Bool_) {
            return Err(AnalysisError::InvalidOperandType(construct));
        }
        Ok(Type::Bool_)
    }

    /// The comparisons.
    fn relational(&self, a: Type, b: Type, construct: Construct) -> (r: Result<
        Type,
        AnalysisError,
    >)
        ensures
            type_agrees(r, relational(a@, b@, construct)),
    {
        if !self.check_types(b, a) {
            return Err(AnalysisError::TypeMismatch(construct));
        }
        Ok(Type::Bool_)
    }

    /// `+`, `-`, `*` and `/`.
    fn arithmetic(&self, a: Type, b: Type, construct: Construct) -> (r: Result<
        Type,
        AnalysisError,
    >)
        ensures
            type_agrees(r, arithmetic(a@, b@, construct)),
    {
        if !self.check_types(a.clone(), b) {
            return Err(AnalysisError::TypeMismatch(construct));
        }
        let takes_strings = match construct {
            Construct::Addition => true,
            _ => false,
        };
        if !(self.check_types(a.clone(), Type::Int_) || (takes_strings && self.check_types(
            a.clone(),
            Type::String_,
        ))) {
            return Err(AnalysisError::InvalidOperandType(construct));
        }
        Ok(a)
    }

    /// The operators of one operand.
    fn unary(&self, t: Type, expected: Type, construct: Construct) -> (r: Result<
        Type,
        AnalysisError,
    >)
        ensures
            type_agrees(r, unary(t@, expected@, construct)),
    {
        if !self.check_types(t, expected.clone()) {
            return Err(AnalysisError::InvalidOperandType(construct));
        }
        Ok(expected)
    }

    /// The actions of the operators of two operands.
    #[verifier::rlimit(50)]
    fn binary(&self, rule: Rules, args: Vec<AttribToken>) -> (r: Result<
        AttribToken,
        AnalysisError,
    >)
        requires
            matching(attribs_view(args@), rule),
            rule == Rules::E_AND || rule == Rules::E_OR || rule == Rules::L_LESS_THAN || rule
                == Rules::L_GREATER_THAN || rule == Rules::L_LESS_EQUAL || rule
                == Rules::L_GREATER_EQUAL || rule == Rules::L_EQUAL_EQUAL || rule
                == Rules::L_NOT_EQUAL || rule == Rules::R_PLUS || rule == Rules::R_MINUS || rule
                == Rules::Y_TIMES || rule == Rules::Y_DIVIDE,
        ensures
            agrees(
                r,
                self@.semantics.scopes,
                synthesize(rule, self@.lexeme, attribs_view(args@), self@.semantics.scopes),
            ),
    {
        proof {
            let a = attribs_view(args@);
            assert(a[0].symbol() == rule.pattern()[0]);
            assert(a[1].symbol() == rule.pattern()[1]);
        }
        let (left, right) = two(args);
        match (left.into_type(), right.into_type()) {
            (Some(a), Some(b)) => {
                match rule {
                    Rules::E_AND => match self.logical(a, b, Construct::And) {
                        Ok(t) => Ok(AttribToken::E(t)),
                        Err(e) => Err(e),
                    },
                    Rules::E_OR => match self.logical(a, b, Construct::Or) {
                        Ok(t) => Ok(AttribToken::E(t)),
                        Err(e) => Err(e),
                    },
                    Rules::L_LESS_THAN => match self.relational(a, b, Construct::LessThan) {
                        Ok(t) => Ok(AttribToken::L(t)),
                        Err(e) => Err(e),
                    },
                    Rules::L_GREATER_THAN => match self.relational(a, b, Construct::GreaterThan) {
                        Ok(t) => Ok(AttribToken::L(t)),
                        Err(e) => Err(e),
                    },
                    Rules::L_LESS_EQUAL => match self.relational(a, b, Construct::LessOrEqual) {
                        Ok(t) => Ok(AttribToken::L(t)),
                        Err(e) => Err(e),
                    },
                    Rules::L_GREATER_EQUAL => match self.relational(
                        a,
                        b,
                        Construct::GreaterOrEqual,
                    ) {
                        Ok(t) => Ok(AttribToken::L(t)),
                        Err(e) => Err(e),
                    },
                    Rules::L_EQUAL_EQUAL => match self.relational(a, b, Construct::EqualEqual) {
                        Ok(t) => Ok(AttribToken::L(t)),
                        Err(e) => Err(e),
                    },
                    Rules::L_NOT_EQUAL => match self.relational(a, b, Construct::NotEqual) {
                        Ok(t) => Ok(AttribToken::L(t)),
                        Err(e) => Err(e),
                    },
                    Rules::R_PLUS => match self.arithmetic(a, b, Construct::Addition) {
                        Ok(t) => Ok(AttribToken::R(t)),
                        Err(e) => Err(e),
                    },
                    Rules::R_MINUS => match self.arithmetic(a, b, Construct::Subtraction) {
                        Ok(t) => Ok(AttribToken::R(t)),
                        Err(e) => Err(e),
                    },
                    Rules::Y_TIMES => match self.arithmetic(a, b, Construct::Multiplication) {
                        Ok(t) => Ok(AttribToken::Y(t)),
                        Err(e) => Err(e),
                    },
                    _ => match self.arithmetic(a, b, Construct::Division) {
                        Ok(t) => Ok(AttribToken::Y(t)),
                        Err(e) => Err(e),
                    },
                }
            },
            _ => Err(AnalysisError::SyntaxError),
        }
    }

    /// The actions that hand one type on, with or without a check of it.
    #[verifier::rlimit(50)]
    fn single(&self, rule: Rules, args: Vec<AttribToken>) -> (r: Result<
        AttribToken,
        AnalysisError,
    >)
        requires
            matching(attribs_view(args@), rule),
            rule == Rules::E_L || rule == Rules::L_R || rule == Rules::R_Y || rule == Rules::Y_F
                || rule == Rules::F_LV || rule == Rules::F_PAR_E_PAR || rule == Rules::F_PLUSPLUS
                || rule == Rules::F_MINUSMINUS || rule == Rules::F_LV_PLUSPLUS || rule
                == Rules::F_LV_MINUSMINUS || rule == Rules::F_NEGATIVE || rule == Rules::F_NOT,
        ensures
            agrees(
                r,
                self@.semantics.scopes,
                synthesize(rule, self@.lexeme, attribs_view(args@), self@.semantics.scopes),
            ),
    {
        proof {
            let a = attribs_view(args@);
            assert(a[0].symbol() == rule.pattern()[0]);
        }
        match one(args).into_type() {
            Some(t) => {
                match rule {
                    Rules::E_L => Ok(AttribToken::E(t)),
                    Rules::L_R => Ok(AttribToken::L(t)),
                    Rules::R_Y => Ok(AttribToken::R(t)),
                    Rules::Y_F => Ok(AttribToken::Y(t)),
                    Rules::F_LV => Ok(AttribToken::F(t)),
                    Rules::F_PAR_E_PAR => Ok(AttribToken::F(t)),
                    Rules::F_PLUSPLUS => match self.unary(t, Type::Int_, Construct::PreIncrement) {
                        Ok(t) => Ok(AttribToken::F(t)),
                        Err(e) => Err(e),
                    },
                    Rules::F_MINUSMINUS => match self.unary(
                        t,
                        Type::Int_,
                        Construct::PreDecrement,
                    ) {
                        Ok(t) => Ok(AttribToken::F(t)),
                        Err(e) => Err(e),
                    },
                    Rules::F_LV_PLUSPLUS => match self.unary(
                        t,
                        Type::Int_,
                        Construct::PostIncrement,
                    ) {
                        Ok(t) => Ok(AttribToken::F(t)),
                        Err(e) => Err(e),
                    },
                    Rules::F_LV_MINUSMINUS => match self.unary(
                        t,
                        Type::Int_,
                        Construct::PostDecrement,
                    ) {
                        Ok(t) => Ok(AttribToken::F(t)),
                        Err(e) => Err(e),
                    },
                    Rules::F_NEGATIVE => match self.unary(t, Type::Int_, Construct::Negation) {
                        Ok(t) => Ok(AttribToken::F(t)),
                        Err(e) => Err(e),
                    },
                    _ => match self.unary(t, Type::Bool_, Construct::Not) {
                        Ok(t) => Ok(AttribToken::F(t)),
                        Err(e) => Err(e),
                    },
                }
            },
            None => Err(AnalysisError::SyntaxError),
        }
    }

    /// The type that a type name stands for.
    fn named_type(kind: Kind) -> (r: Result<Type, AnalysisError>)
        ensures
            type_agrees(r, named_type(kind@)),
    {
        match kind {
            Kind::scalar(t) => Ok(t),
            Kind::array(t) => Ok(t),
            Kind::struct_(t) => Ok(t),
            Kind::alias(t) => Ok(t),
            _ => Err(AnalysisError::InvalidKind(Role::TypeName)),
        }
    }

    /// The type of the variable or parameter that an identifier denotes.
    fn stored_type(kind: Kind) -> (r: Result<Type, AnalysisError>)
        ensures
            type_agrees(r, stored_type(kind@)),
    {
        match kind {
            Kind::var(t) => Ok(t),
            Kind::param(t) => Ok(t),
            _ => Err(AnalysisError::InvalidKind(Role::Lvalue)),
        }
    }

    /// The type of a field of a struct.
    fn field_type(base: Type, name: &String) -> (r: Result<Type, AnalysisError>)
        ensures
            type_agrees(r, field_type(base@, name@)),
    {
        match base {
            Type::Struct_type_(fields) => {
                proof {
                    lemma_struct_view(fields);
                }
                let ghost model = objects_view(fields@);
                let mut i: usize = 0;
                while i < fields.len()
                    invariant
                        i <= fields.len(),
                        model == objects_view(fields@),
                        base@ == TypeView::Struct(model),
                        first_field(model, name@, 0) == first_field(model, name@, i as int),
                    decreases fields.len() - i,
                {
                    assert(model[i as int] == fields@[i as int]@);
                    if *name == fields[i].0 {
                        match &fields[i].1 {
                            Kind::field(found) => {
                                assert(fields@[i as int].1@ == KindView::Field(found@));
                                return Ok(found.clone());
                            },
                            _ => {},
                        }
                    }
                    i += 1;
                }
                Err(AnalysisError::StructFieldNotDeclared)
            },
            _ => Err(AnalysisError::InvalidKind(Role::FieldList)),
        }
    }

    /// The type of an element of a string or of an array.
    fn element_type(&self, base: Type, index: Type) -> (r: Result<Type, AnalysisError>)
        ensures
            type_agrees(r, element_type(base@, index@)),
    {
        let element = match base {
            Type::String_ => Type::Char_,
            Type::Array_type_(_, element) => *element,
            _ => {
                return Err(AnalysisError::InvalidIndexTarget);
            },
        };
        if !self.check_types(index, Type::Int_) {
            return Err(AnalysisError::InvalidOperandType(Construct::Index));
        }
        Ok(element)
    }

    /// Checks one more argument of a call against the parameter at its position.
    fn argument(&self, params: Vec<Type>, position: usize, t: Type) -> (r: Result<
        AttribToken,
        AnalysisError,
    >)
        ensures
            match argument(types_view(params@), position as nat, t@) {
                Ok(attribute) => r is Ok && r->Ok_0@ == attribute,
                Err(e) => r == Err::<AttribToken, AnalysisError>(e),
            },
    {
        if position >= params.len() {
            return Err(AnalysisError::ArityMismatch(Arity::TooManyArguments));
        }
        assert(types_view(params@)[position as int] == params@[position as int]@);
        if !self.check_types(t, params[position].clone()) {
            return Err(AnalysisError::TypeMismatch(Construct::Argument(position + 1)));
        }
        Ok(AttribToken::LE(params, position + 1))
    }

    /// Completes a call of which `given` arguments have been checked.
    fn call(ret: Type, params: &Vec<Type>, given: usize) -> (r: Result<AttribToken, AnalysisError>)
        ensures
            match call(ret@, types_view(params@), given as nat) {
                Ok(attribute) => r is Ok && r->Ok_0@ == attribute,
                Err(e) => r == Err::<AttribToken, AnalysisError>(e),
            },
    {
        if params.len() > given {
            return Err(AnalysisError::ArityMismatch(Arity::TooFewArguments));
        }
        Ok(AttribToken::F(ret))
    }

    /// The actions that resolve the names of types, variables and parameters.
    fn name(&self, rule: Rules, args: Vec<AttribToken>) -> (r: Result<AttribToken, AnalysisError>)
        requires
            matching(attribs_view(args@), rule),
            rule == Rules::T_IDU || rule == Rules::LV_IDU,
        ensures
            agrees(
                r,
                self@.semantics.scopes,
                synthesize(rule, self@.lexeme, attribs_view(args@), self@.semantics.scopes),
            ),
    {
        proof {
            let a = attribs_view(args@);
            assert(a[0].symbol() == rule.pattern()[0]);
        }
        match one(args).into_object() {
            Some(obj) => match rule {
                Rules::T_IDU => match Self::named_type(obj.1) {
                    Ok(t) => Ok(AttribToken::T(t)),
                    Err(e) => Err(e),
                },
                _ => match Self::stored_type(obj.1) {
                    Ok(t) => Ok(AttribToken::LV(t)),
                    Err(e) => Err(e),
                },
            },
            None => Err(AnalysisError::SyntaxError),
        }
    }

    /// The actions that select a part of a left-value.
    #[verifier::rlimit(50)]
    fn selection(&self, rule: Rules, args: Vec<AttribToken>) -> (r: Result<
        AttribToken,
        AnalysisError,
    >)
        requires
            matching(attribs_view(args@), rule),
            rule == Rules::LV_STRUCT || rule == Rules::LV_ARR,
        ensures
            agrees(
                r,
                self@.semantics.scopes,
                synthesize(rule, self@.lexeme, attribs_view(args@), self@.semantics.scopes),
            ),
    {
        let ghost a = attribs_view(args@);
        assert(a[0].symbol() == rule.pattern()[0]);
        assert(a[1].symbol() == rule.pattern()[1]);
        let (lv, selector) = two(args);
        match rule {
            Rules::LV_STRUCT => {
                match (lv.into_type(), selector.into_object()) {
                    (Some(base), Some(obj)) => match Self::field_type(base, &obj.0) {
                        Ok(t) => Ok(AttribToken::LV(t)),
                        Err(e) => Err(e),
                    },
                    _ => Err(AnalysisError::SyntaxError),
                }
            },
            _ => {
                match (lv.into_type(), selector.into_type()) {
                    (Some(base), Some(index)) => match self.element_type(base, index) {
                        Ok(t) => Ok(AttribToken::LV(t)),
                        Err(e) => Err(e),
                    },
                    _ => Err(AnalysisError::SyntaxError),
                }
            },
        }
    }

    /// The action of a further argument of a call.
    fn next_argument(&self, args: Vec<AttribToken>) -> (r: Result<AttribToken, AnalysisError>)
        requires
            matching(attribs_view(args@), Rules::LE_LE),
        ensures
            agrees(
                r,
                self@.semantics.scopes,
                synthesize(
                    Rules::LE_LE,
                    self@.lexeme,
                    attribs_view(args@),
                    self@.semantics.scopes,
                ),
            ),
    {
        let ghost a = attribs_view(args@);
        assert(a[0].symbol() == Rules::LE_LE.pattern()[0]);
        assert(a[1].symbol() == Rules::LE_LE.pattern()[1]);
        let (le, e) = two(args);
        match (le, e.into_type()) {
            (AttribToken::LE(params, given), Some(t)) => self.argument(params, given, t),
            _ => Err(AnalysisError::SyntaxError),
        }
    }

    /// The actions that complete a call.
    #[verifier::rlimit(50)]
    fn completed_call(&self, rule: Rules, args: Vec<AttribToken>) -> (r: Result<
        AttribToken,
        AnalysisError,
    >)
        requires
            matching(attribs_view(args@), rule),
            rule == Rules::F_FUNC_CALL || rule == Rules::F_FUNC_CALL_EMPTY,
        ensures
            agrees(
                r,
                self@.semantics.scopes,
                synthesize(rule, self@.lexeme, attribs_view(args@), self@.semantics.scopes),
            ),
    {
        let ghost a = attribs_view(args@);
        assert(a[0].symbol() == rule.pattern()[0]);
        assert(a[1].symbol() == rule.pattern()[1]);
        match rule {
            Rules::F_FUNC_CALL => {
                assert(a[2].symbol() == rule.pattern()[2]);
                let (_idu, mc, le) = three(args);
                match (mc, le) {
                    (AttribToken::MC(ret, _), AttribToken::LE(params, given)) => {
                        Self::call(ret, &params, given)
                    },
                    _ => Err(AnalysisError::SyntaxError),
                }
            },
            _ => {
                let (_idu, mc) = two(args);
                match mc {
                    AttribToken::MC(ret, params) => Self::call(ret, &params, 0),
                    _ => Err(AnalysisError::SyntaxError),
                }
            },
        }
    }

    /// The action that starts a call: the callee has to be a function.
    fn callee(&self) -> (r: Result<AttribToken, AnalysisError>)
        requires
            aligned(self@.semantics.attributes, Rules::MC),
        ensures
            agrees(
                r,
                self@.semantics.scopes,
                synthesize(
                    Rules::MC,
                    self@.lexeme,
                    arguments(self@.semantics.attributes, Rules::MC),
                    self@.semantics.scopes,
                ),
            ),
    {
        let n = self.semantic_stack.len();
        let ghost a = arguments(self@.semantics.attributes, Rules::MC);
        assert(a[0] == self@.semantics.attributes[n - 1 + 0]);
        assert(a[0] == self.semantic_stack@[n - 1]@);
        match &self.semantic_stack[n - 1] {
            AttribToken::IDU(obj) => match &obj.1 {
                Kind::function(ret, params) => {
                    proof {
                        lemma_function_view(*ret, *params);
                    }
                    Ok(AttribToken::MC(ret.clone(), clone_types(params)))
                },
                _ => Err(AnalysisError::InvalidKind(Role::Callable)),
            },
            _ => Err(AnalysisError::SyntaxError),
        }
    }

    /// The action of the first argument of a call.
    fn first_argument(&self) -> (r: Result<AttribToken, AnalysisError>)
        requires
            aligned(self@.semantics.attributes, Rules::LE_E),
        ensures
            agrees(
                r,
                self@.semantics.scopes,
                synthesize(
                    Rules::LE_E,
                    self@.lexeme,
                    arguments(self@.semantics.attributes, Rules::LE_E),
                    self@.semantics.scopes,
                ),
            ),
    {
        let n = self.semantic_stack.len();
        let ghost a = arguments(self@.semantics.attributes, Rules::LE_E);
        assert(a[0] == self@.semantics.attributes[n - 2 + 0]);
        assert(a[1] == self@.semantics.attributes[n - 2 + 1]);
        assert(a[0] == self.semantic_stack@[n - 2]@);
        assert(a[1] == self.semantic_stack@[n - 1]@);
        match (&self.semantic_stack[n - 2], &self.semantic_stack[n - 1]) {
            (AttribToken::MC(_, params), AttribToken::E(t)) => self.argument(
                clone_types(params),
                0,
                t.clone(),
            ),
            _ => Err(AnalysisError::SyntaxError),
        }
    }

    /// The types of the parameters in a list of bindings.
    fn param_types(objs: &Vec<Object>) -> (r: Vec<Type>)
        ensures
            types_view(r@) == param_types(objects_view(objs@)),
    {
        let ghost model = objects_view(objs@);
        let mut types_vec: Vec<Type> = Vec::new();
        let mut i: usize = 0;
        assert(model.take(0) =~= Seq::<ObjectView>::empty());
        assert(types_view(types_vec@) =~= param_types(model.take(0)));
        while i < objs.len()
            invariant
                i <= objs.len(),
                model == objects_view(objs@),
                types_view(types_vec@) == param_types(model.take(i as int)),
            decreases objs.len() - i,
        {
            let ghost before = types_view(types_vec@);
            proof {
                assert(model.take(i + 1).drop_last() =~= model.take(i as int));
                assert(model.take(i + 1).last() == objs@[i as int]@);
            }
            match &objs[i].1 {
                Kind::param(t) => {
                    types_vec.push(t.clone());
                    assert(types_view(types_vec@) =~= before.push(t@));
                },
                _ => {},
            }
            i += 1;
        }
        assert(model.take(objs.len() as int) =~= model);
        types_vec
    }

    /// The action that completes the header of a function: its name
    /// receives the signature, so that the body may call it.
    fn function_header(&mut self) -> (r: Result<AttribToken, AnalysisError>)
        requires
            aligned(old(self)@.semantics.attributes, Rules::MF),
        ensures
            same_but_scopes(old(self)@, final(self)@),
            agrees(
                r,
                final(self)@.semantics.scopes,
                synthesize(
                    Rules::MF,
                    old(self)@.lexeme,
                    arguments(old(self)@.semantics.attributes, Rules::MF),
                    old(self)@.semantics.scopes,
                ),
            ),
    {
        let n = self.semantic_stack.len();
        let ghost a = arguments(self@.semantics.attributes, Rules::MF);
        assert(a[0] == self@.semantics.attributes[n - 4 + 0]);
        assert(a[2] == self@.semantics.attributes[n - 4 + 2]);
        assert(a[3] == self@.semantics.attributes[n - 4 + 3]);
        assert(a[0] == self.semantic_stack@[n - 4]@);
        assert(a[2] == self.semantic_stack@[n - 2]@);
        assert(a[3] == self.semantic_stack@[n - 1]@);
        match (
            &self.semantic_stack[n - 4],
            &self.semantic_stack[n - 2],
            &self.semantic_stack[n - 1],
        ) {
            (AttribToken::IDD(idd_obj), AttribToken::LP(obj_vec), AttribToken::T(type_)) => {
                let types_vec = Self::param_types(obj_vec);
                let name = idd_obj.0.clone();
                let return_type = type_.clone();
                self.scope_analyzer.func_type_decl(name.as_str(), return_type, types_vec);
                Ok(AttribToken::MF)
            },
            _ => Err(AnalysisError::SyntaxError),
        }
    }

    /// Gives every name of a list the kind of a struct field, or of a variable.
    fn declare_list(&mut self, objs: &Vec<Object>, t: &Type, field: bool)
        ensures
            same_but_scopes(old(self)@, final(self)@),
            final(self)@.semantics.scopes == declare_each(
                old(self)@.semantics.scopes,
                objects_view(objs@),
                if field {
                    KindView::Field(t@)
                } else {
                    KindView::Var(t@)
                },
            ),
    {
        let ghost model = objects_view(objs@);
        let ghost kind = if field {
            KindView::Field(t@)
        } else {
            KindView::Var(t@)
        };
        let ghost scopes = self@.semantics.scopes;
        let mut i: usize = 0;
        assert(model.take(0) =~= Seq::<ObjectView>::empty());
        while i < objs.len()
            invariant
                i <= objs.len(),
                model == objects_view(objs@),
                same_but_scopes(old(self)@, self@),
                kind == if field {
                    KindView::Field(t@)
                } else {
                    KindView::Var(t@)
                },
                scopes == old(self)@.semantics.scopes,
                self@.semantics.scopes == declare_each(scopes, model.take(i as int), kind),
            decreases objs.len() - i,
        {
            proof {
                assert(model.take(i + 1).drop_last() =~= model.take(i as int));
                assert(model.take(i + 1).last() == objs@[i as int]@);
            }
            if field {
                self.scope_analyzer.struct_field_decl(objs[i].0.as_str(), t.clone());
            } else {
                self.scope_analyzer.var_decl(objs[i].0.as_str(), t.clone());
            }
            i += 1;
        }
        assert(model.take(objs.len() as int) =~= model);
    }

    /// The actions that complete the declaration of variables and of struct fields.
    #[verifier::rlimit(50)]
    fn declaration(&mut self, rule: Rules, args: Vec<AttribToken>) -> (r: Result<
        AttribToken,
        AnalysisError,
    >)
        requires
            matching(attribs_view(args@), rule),
            rule == Rules::DC_DC || rule == Rules::DC_LI || rule == Rules::DV,
        ensures
            same_but_scopes(old(self)@, final(self)@),
            agrees(
                r,
                final(self)@.semantics.scopes,
                synthesize(
                    rule,
                    old(self)@.lexeme,
                    attribs_view(args@),
                    old(self)@.semantics.scopes,
                ),
            ),
    {
        let ghost a = attribs_view(args@);
        assert(a[0].symbol() == rule.pattern()[0]);
        assert(a[1].symbol() == rule.pattern()[1]);
        let (li, t) = match rule {
            Rules::DC_DC => {
                assert(a[2].symbol() == rule.pattern()[2]);
                let (_dc, li, t) = three(args);
                (li, t)
            },
            _ => two(args),
        };
        match (li.into_objects(), t.into_type()) {
            (Some(obj_vec), Some(type_)) => {
                match rule {
                    Rules::DV => {
                        self.declare_list(&obj_vec, &type_, false);
                        Ok(AttribToken::DV)
                    },
                    _ => {
                        self.declare_list(&obj_vec, &type_, true);
                        Ok(AttribToken::DC)
                    },
                }
            },
            _ => Err(AnalysisError::SyntaxError),
        }
    }

    /// The actions that complete the declaration of a type.
    #[verifier::rlimit(50)]
    fn type_declaration(&mut self, rule: Rules, args: Vec<AttribToken>) -> (r: Result<
        AttribToken,
        AnalysisError,
    >)
        requires
            matching(attribs_view(args@), rule),
            rule == Rules::DT_ARRAY || rule == Rules::DT_STRUCT || rule == Rules::DT_ALIAS,
        ensures
            same_but_scopes(old(self)@, final(self)@),
            agrees(
                r,
                final(self)@.semantics.scopes,
                synthesize(
                    rule,
                    old(self)@.lexeme,
                    attribs_view(args@),
                    old(self)@.semantics.scopes,
                ),
            ),
    {
        let ghost a = attribs_view(args@);
        assert(a[0].symbol() == rule.pattern()[0]);
        assert(a[1].symbol() == rule.pattern()[1]);
        match rule {
            Rules::DT_ARRAY => {
                assert(a[2].symbol() == rule.pattern()[2]);
                let (idd, num, t) = three(args);
                match (idd.into_object(), num, t.into_type()) {
                    (Some(obj), AttribToken::NUM(_, n_elements), Some(type_)) => {
                        match self.scope_analyzer.array_type_decl(
                            obj.0.as_str(),
                            n_elements,
                            type_,
                        ) {
                            Ok(()) => Ok(AttribToken::DT),
                            Err(e) => Err(e),
                        }
                    },
                    _ => Err(AnalysisError::SyntaxError),
                }
            },
            Rules::DT_STRUCT => {
                assert(a[2].symbol() == rule.pattern()[2]);
                let (idd, _nb, _dc) = three(args);
                match idd.into_object() {
                    Some(obj) => {
                        self.scope_analyzer.struct_type_decl(obj.0.as_str());
                        Ok(AttribToken::DT)
                    },
                    None => Err(AnalysisError::SyntaxError),
                }
            },
            _ => {
                let (idd, t) = two(args);
                match (idd.into_object(), t.into_type()) {
                    (Some(obj), Some(type_)) => {
                        self.scope_analyzer.alias_type_decl(obj.0.as_str(), type_);
                        Ok(AttribToken::DT)
                    },
                    _ => Err(AnalysisError::SyntaxError),
                }
            },
        }
    }

    /// The actions that declare a parameter and add it to the list of parameters.
    #[verifier::rlimit(50)]
    fn parameter(&mut self, rule: Rules, args: Vec<AttribToken>) -> (r: Result<
        AttribToken,
        AnalysisError,
    >)
        requires
            matching(attribs_view(args@), rule),
            rule == Rules::LP_LP || rule == Rules::LP_IDD,
        ensures
            same_but_scopes(old(self)@, final(self)@),
            agrees(
                r,
                final(self)@.semantics.scopes,
                synthesize(
                    rule,
                    old(self)@.lexeme,
                    attribs_view(args@),
                    old(self)@.semantics.scopes,
                ),
            ),
    {
        let ghost a = attribs_view(args@);
        assert(a[0].symbol() == rule.pattern()[0]);
        assert(a[1].symbol() == rule.pattern()[1]);
        let (lp, idd, t) = match rule {
            Rules::LP_LP => {
                assert(a[2].symbol() == rule.pattern()[2]);
                three(args)
            },
            _ => {
                let (idd, t) = two(args);
                (AttribToken::LP(Vec::new()), idd, t)
            },
        };
        match (lp.into_objects(), idd.into_object(), t.into_type()) {
            (Some(mut obj_vec), Some(obj), Some(type_)) => {
                let ghost before = objects_view(obj_vec@);
                self.scope_analyzer.param_type_decl(obj.0.as_str(), type_.clone());
                let param = Object(obj.0, Kind::param(type_));
                obj_vec.push(param);
                assert(objects_view(obj_vec@) =~= before.push(param@));
                proof {
                    if rule == Rules::LP_IDD {
                        assert(before =~= Seq::<ObjectView>::empty());
                        assert(before.push(param@) =~= seq![param@]);
                    }
                }
                Ok(AttribToken::LP(obj_vec))
            },
            _ => Err(AnalysisError::SyntaxError),
        }
    }

    /// The actions that collect declared identifiers in a list, in source order.
    #[verifier::rlimit(50)]
    fn identifier_list(&self, rule: Rules, args: Vec<AttribToken>) -> (r: Result<
        AttribToken,
        AnalysisError,
    >)
        requires
            matching(attribs_view(args@), rule),
            rule == Rules::LI_LI || rule == Rules::LI_IDD,
        ensures
            agrees(
                r,
                self@.semantics.scopes,
                synthesize(rule, self@.lexeme, attribs_view(args@), self@.semantics.scopes),
            ),
    {
        let ghost a = attribs_view(args@);
        assert(a[0].symbol() == rule.pattern()[0]);
        let (li, idd) = match rule {
            Rules::LI_LI => {
                assert(a[1].symbol() == rule.pattern()[1]);
                two(args)
            },
            _ => (AttribToken::LI(Vec::new()), one(args)),
        };
        match (li.into_objects(), idd.into_object()) {
            (Some(mut vec_obj), Some(obj)) => {
                let ghost before = objects_view(vec_obj@);
                vec_obj.push(obj);
                assert(objects_view(vec_obj@) =~= before.push(obj@));
                proof {
                    if rule == Rules::LI_IDD {
                        assert(before =~= Seq::<ObjectView>::empty());
                        assert(before.push(obj@) =~= seq![a[0].object()]);
                    }
                }
                Ok(AttribToken::LI(vec_obj))
            },
            _ => Err(AnalysisError::SyntaxError),
        }
    }

    /// The actions that turn the text of a token into an attribute.
    #[verifier::rlimit(50)]
    fn token(&mut self, rule: Rules) -> (r: Result<AttribToken, AnalysisError>)
        requires
            rule == Rules::IDD || rule == Rules::IDU || rule == Rules::ID || rule == Rules::TRUE
                || rule == Rules::FALSE || rule == Rules::C || rule == Rules::STR || rule
                == Rules::NUM,
        ensures
            same_but_scopes(old(self)@, final(self)@),
            agrees(
                r,
                final(self)@.semantics.scopes,
                synthesize(
                    rule,
                    old(self)@.lexeme,
                    Seq::<AttribView>::empty(),
                    old(self)@.semantics.scopes,
                ),
            ),
    {
        match rule {
            Rules::IDD => {
                let idd = AttribToken::IDD(Object(self.token_sec.clone(), Kind::no_kind_def));
                if let Some(_) = self.scope_analyzer.search(self.token_sec.as_str()) {
                    Err(AnalysisError::IdentifierRedeclared)
                } else {
                    self.scope_analyzer.define(self.token_sec.clone());
                    Ok(idd)
                }
            },
            Rules::IDU => {
                if let Some(obj) = self.scope_analyzer.find(self.token_sec.as_str()) {
                    Ok(AttribToken::IDU(obj))
                } else {
                    Err(AnalysisError::IdentifierNotDeclared)
                }
            },
            Rules::ID => Ok(AttribToken::ID(Object(self.token_sec.clone(), Kind::no_kind_def))),
            Rules::TRUE => Ok(
                AttribToken::TRUE(Object(String::new(), Kind::scalar(Type::Bool_)), true),
            ),
            Rules::FALSE => Ok(
                AttribToken::FALSE(Object(String::new(), Kind::scalar(Type::Bool_)), false),
            ),
            Rules::C => {
                if self.token_sec.as_str().unicode_len() == 0 {
                    return Err(AnalysisError::SyntaxError);
                }
                let ch = self.token_sec.as_str().get_char(0);
                Ok(AttribToken::CHR(Object(String::new(), Kind::scalar(Type::Char_)), ch))
            },
            Rules::STR => Ok(
                AttribToken::STR(
                    Object(String::new(), Kind::scalar(Type::String_)),
                    self.token_sec.clone(),
                ),
            ),
            _ => match parse_numeral(self.token_sec.as_str()) {
                Some(n) => Ok(
                    AttribToken::NUM(Object(String::new(), Kind::scalar(Type::Int_)), n),
                ),
                None => Err(AnalysisError::SyntaxError),
            },
        }
    }

    /// The actions that carry no type and read no attribute: those of
    /// the lists and markers, of the type keywords and of the literals,
    /// and those that open or close a block.
    #[verifier::rlimit(50)]
    fn structure(&mut self, rule: Rules) -> (r: Result<AttribToken, AnalysisError>)
        requires
            rule == Rules::P || rule == Rules::LDE_LDE || rule == Rules::LDE_DE || rule
                == Rules::DE_DF || rule == Rules::DE_DT || rule == Rules::T_INT || rule
                == Rules::T_CHAR || rule == Rules::T_BOOL || rule == Rules::T_STRING || rule
                == Rules::B || rule == Rules::LDV_LDV || rule == Rules::LDV_DV || rule
                == Rules::LS_LS || rule == Rules::LS_S || rule == Rules::S_BREAK || rule
                == Rules::S_CONTINUE || rule == Rules::F_TRUE || rule == Rules::F_FALSE || rule
                == Rules::F_C || rule == Rules::F_STR || rule == Rules::F_NUM || rule
                == Rules::MT || rule == Rules::ME || rule == Rules::MW || rule == Rules::NB
                || rule == Rules::NF || rule == Rules::DF || rule == Rules::S_NB,
        ensures
            same_but_scopes(old(self)@, final(self)@),
            forall|a: Seq<AttribView>|
                agrees(
                    r,
                    final(self)@.semantics.scopes,
                    #[trigger] synthesize(rule, old(self)@.lexeme, a, old(self)@.semantics.scopes),
                ),
    {
        match rule {
            Rules::P => Ok(AttribToken::P),
            Rules::LDE_LDE | Rules::LDE_DE => Ok(AttribToken::LDE),
            Rules::DE_DF | Rules::DE_DT => Ok(AttribToken::DE),
            Rules::T_INT => Ok(AttribToken::T(Type::Int_)),
            Rules::T_CHAR => Ok(AttribToken::T(Type::Char_)),
            Rules::T_BOOL => Ok(AttribToken::T(Type::Bool_)),
            Rules::T_STRING => Ok(AttribToken::T(Type::String_)),
            Rules::B => Ok(AttribToken::B),
            Rules::LDV_LDV | Rules::LDV_DV => Ok(AttribToken::LDV),
            Rules::LS_LS | Rules::LS_S => Ok(AttribToken::LS),
            Rules::S_BREAK | Rules::S_CONTINUE => Ok(AttribToken::S),
            Rules::F_TRUE | Rules::F_FALSE => Ok(AttribToken::F(Type::Bool_)),
            Rules::F_C => Ok(AttribToken::F(Type::Char_)),
            Rules::F_STR => Ok(AttribToken::F(Type::String_)),
            Rules::F_NUM => Ok(AttribToken::F(Type::Int_)),
            Rules::MT => Ok(AttribToken::MT),
            Rules::ME => Ok(AttribToken::ME),
            Rules::MW => Ok(AttribToken::MW),
            Rules::NB => {
                self.scope_analyzer.new_block();
                Ok(AttribToken::NB)
            },
            Rules::NF => {
                self.scope_analyzer.new_block();
                Ok(AttribToken::NF)
            },
            Rules::DF => {
                self.scope_analyzer.end_block();
                Ok(AttribToken::DF)
            },
            _ => {
                self.scope_analyzer.end_block();
                Ok(AttribToken::S)
            },
        }
    }

    /// Runs the action of `rule` on a stack that holds what the action
    /// reads. The attributes of the right-hand side may leave the stack
    /// here already; what lies below them stays.
    #[verifier::rlimit(50)]
    fn act(&mut self, rule: Rules) -> (r: Result<AttribToken, AnalysisError>)
        requires
            aligned(old(self)@.semantics.attributes, rule),
        ensures
            final(self)@.program == old(self)@.program,
            final(self)@.lexeme == old(self)@.lexeme,
            final(self)@.states == old(self)@.states,
            final(self)@.semantics.attributes.len() >= old(self)@.semantics.attributes.len()
                - rule.consumed(),
            final(self)@.semantics.attributes.take(
                old(self)@.semantics.attributes.len() - rule.consumed(),
            ) == old(self)@.semantics.attributes.take(
                old(self)@.semantics.attributes.len() - rule.consumed(),
            ),
            agrees(
                r,
                final(self)@.semantics.scopes,
                synthesize(
                    rule,
                    old(self)@.lexeme,
                    arguments(old(self)@.semantics.attributes, rule),
                    old(self)@.semantics.scopes,
                ),
            ),
    {
        let n = self.semantic_stack.len();
        let taken = rule.taken();
        let ghost before = self@.semantics.attributes;
        match rule {
            Rules::MC => self.callee(),
            Rules::LE_E => self.first_argument(),
            Rules::MF => self.function_header(),
            Rules::P | Rules::LDE_LDE | Rules::LDE_DE | Rules::DE_DF | Rules::DE_DT
            | Rules::T_INT | Rules::T_CHAR | Rules::T_BOOL | Rules::T_STRING | Rules::B
            | Rules::LDV_LDV | Rules::LDV_DV | Rules::LS_LS | Rules::LS_S | Rules::S_BREAK
            | Rules::S_CONTINUE | Rules::F_TRUE | Rules::F_FALSE | Rules::F_C | Rules::F_STR
            | Rules::F_NUM | Rules::MT | Rules::ME | Rules::MW | Rules::NB | Rules::NF
            | Rules::DF | Rules::S_NB => self.structure(rule),
            Rules::IDD | Rules::IDU | Rules::ID | Rules::TRUE | Rules::FALSE | Rules::C
            | Rules::STR | Rules::NUM => {
                assert(arguments(before, rule) =~= Seq::<AttribView>::empty());
                self.token(rule)
            },
            _ => {
                let args = self.semantic_stack.split_off(n - taken);
                proof {
                    assert(attribs_view(args@) =~= arguments(before, rule));
                    assert(self@.semantics.attributes =~= before.take(n - taken));
                    assert forall|i: int| 0 <= i < args@.len() implies (#[trigger] attribs_view(
                        args@,
                    )[i]).symbol() == rule.pattern()[i] by {
                        assert(attribs_view(args@)[i] == before[n - rule.pattern().len() + i]);
                    }
                }
                match rule {
                    Rules::S_IF | Rules::S_IF_ELSE | Rules::S_WHILE | Rules::S_DO_WHILE
                    | Rules::S_LV => self.statement(rule, args),
                    Rules::E_AND | Rules::E_OR | Rules::L_LESS_THAN | Rules::L_GREATER_THAN
                    | Rules::L_LESS_EQUAL | Rules::L_GREATER_EQUAL | Rules::L_EQUAL_EQUAL
                    | Rules::L_NOT_EQUAL | Rules::R_PLUS | Rules::R_MINUS | Rules::Y_TIMES
                    | Rules::Y_DIVIDE => self.binary(rule, args),
                    Rules::E_L | Rules::L_R | Rules::R_Y | Rules::Y_F | Rules::F_LV
                    | Rules::F_PAR_E_PAR | Rules::F_PLUSPLUS | Rules::F_MINUSMINUS
                    | Rules::F_LV_PLUSPLUS | Rules::F_LV_MINUSMINUS | Rules::F_NEGATIVE
                    | Rules::F_NOT => self.single(rule, args),
                    Rules::T_IDU | Rules::LV_IDU => self.name(rule, args),
                    Rules::LV_STRUCT | Rules::LV_ARR => self.selection(rule, args),
                    Rules::LE_LE => self.next_argument(args),
                    Rules::F_FUNC_CALL | Rules::F_FUNC_CALL_EMPTY => self.completed_call(
                        rule,
                        args,
                    ),
                    Rules::DC_DC | Rules::DC_LI | Rules::DV => self.declaration(rule, args),
                    Rules::DT_ARRAY | Rules::DT_STRUCT | Rules::DT_ALIAS => self.type_declaration(
                        rule,
                        args,
                    ),
                    Rules::LP_LP | Rules::LP_IDD => self.parameter(rule, args),
                    _ => self.identifier_list(rule, args),
                }
            },
        }
    }

    /// Runs the semantic action of a reduction by `reduction_rule`: the
    /// attributes of the right-hand side leave the attribute stack, and
    /// the attribute that the action synthesizes from them takes their
    /// place. The action fails with the first violation that it finds, and
    /// with a syntax error where the stack does not hold what the
    /// right-hand side derives. After a failure the machine is of no further use.
    #[verifier::rlimit(50)]
    pub fn semantics(&mut self, reduction_rule: Rules) -> (r: Result<(), AnalysisError>)
        ensures
            final(self)@.program == old(self)@.program,
            final(self)@.lexeme == old(self)@.lexeme,
            final(self)@.states == old(self)@.states,
            match reduce(reduction_rule, old(self)@.lexeme, old(self)@.semantics) {
                Ok(s) => r is Ok && final(self)@.semantics == s,
                Err(e) => r == Err::<(), AnalysisError>(e),
            },
    {
        let pattern = reduction_rule.expected();
        if !holds(&self.semantic_stack, &pattern) {
            return Err(AnalysisError::SyntaxError);
        }
        let n = self.semantic_stack.len();
        let taken = reduction_rule.taken();
        let ghost before = self@.semantics.attributes;
        match self.act(reduction_rule) {
            Ok(attribute) => {
                self.semantic_stack.truncate(n - taken);
                self.semantic_stack.push(attribute);
                assert(self@.semantics.attributes =~= before.take(n - taken).push(attribute@));
                Ok(())
            },
            Err(e) => Err(e),
        }
    }

    /// The configuration that the machine is in while its scanner stands
    /// at `pos` and the automaton looks at `lookahead`.
    pub open spec fn config(self, pos: nat, lookahead: TokenView) -> Config {
        Config {
            parse: Parse { states: self@.states, pos, lookahead, lexeme: self@.lexeme },
            semantics: self@.semantics,
        }
    }

    /// The states after a reduction by production `index`.
    fn goto(&mut self, tables: &GrammarTables, index: usize) -> (r: bool)
        ensures
            final(self)@.program == old(self)@.program,
            final(self)@.lexeme == old(self)@.lexeme,
            final(self)@.semantics == old(self)@.semantics,
            match goto(tables@, old(self)@.states, index as nat) {
                Some(states) => r && final(self)@.states == states,
                None => !r,
            },
    {
        let (length, left) = match (tables.length(index), tables.left(index)) {
            (Some(length), Some(left)) => (length, left),
            _ => {
                return false;
            },
        };
        if length >= self.syntatic_stack.len() {
            return false;
        }
        let new_length = self.syntatic_stack.len() - length;
        self.syntatic_stack.truncate(new_length);
        let target = tables.entry(self.syntatic_stack[new_length - 1], left.into_usize());
        if target <= 0 {
            return false;
        }
        // pushing the state after the transition with the nonterminal
        self.syntatic_stack.push(target as usize);
        true
    }

    /// Analyses the program: runs the automaton over the tokens of the
    /// text, from the machine's present states, attributes and scopes, and
    /// runs the semantic action of every reduction. The result is `Ok(true)`
    /// once the automaton accepts, and else the first violation.
    #[verifier::rlimit(50)]
    pub fn parse(&mut self, tables: &GrammarTables) -> (r: Result<bool, AnalysisError>)
        ensures
            final(self)@.program == old(self)@.program,
            match run(
                tables@,
                old(self)@.program,
                Config {
                    parse: start(old(self)@.program, old(self)@.states, old(self)@.lexeme),
                    semantics: old(self)@.semantics,
                },
                STEP_LIMIT as nat,
            ) {
                Ok(last) => r == Ok::<bool, AnalysisError>(true) && final(self)@.states
                    == last.parse.states && final(self)@.lexeme == last.parse.lexeme
                    && final(self)@.semantics == last.semantics,
                Err(e) => r == Err::<bool, AnalysisError>(e),
            },
    {
        let temp = self.program.clone();
        let mut token_stream = TokenStream::new(temp.as_str().chars());
        let mut curr_tok = token_stream.next().unwrap();
        let ghost text = self@.program;
        let ghost whole = run(
            tables@,
            text,
            Config {
                parse: start(text, self@.states, self@.lexeme),
                semantics: self@.semantics,
            },
            STEP_LIMIT as nat,
        );
        let mut fuel: usize = STEP_LIMIT;
        while fuel > 0
            invariant
                text == old(self)@.program,
                self@.program == text,
                token_stream@.text == text,
                whole == run(
                    tables@,
                    text,
                    Config {
                        parse: start(text, old(self)@.states, old(self)@.lexeme),
                        semantics: old(self)@.semantics,
                    },
                    STEP_LIMIT as nat,
                ),
                whole == run(
                    tables@,
                    text,
                    self.config(token_stream@.pos, curr_tok@),
                    fuel as nat,
                ),
            decreases fuel,
        {
            let ghost c = self.config(token_stream@.pos, curr_tok@);
            if self.syntatic_stack.len() == 0 {
                return Err(AnalysisError::SyntaxError);
            }
            let action = tables.entry(
                self.syntatic_stack[self.syntatic_stack.len() - 1],
                usize::from(curr_tok),
            );
            match curr_tok.text() {
                Some(lexeme) => {
                    self.token_sec = lexeme;
                },
                None => {},
            }
            if action > 0 {
                self.syntatic_stack.push(action as usize);
                curr_tok = token_stream.next().unwrap();
            } else if action < 0 {
                // The table counts the productions from 1, as 0 stands for an error.
                let index = (-(action + 1)) as usize;
                let reduction_rule = match Rules::from_index(index) {
                    Some(rule) => rule,
                    None => {
                        return Err(AnalysisError::SyntaxError);
                    },
                };
                match self.semantics(reduction_rule) {
                    Ok(()) => {},
                    Err(e) => {
                        return Err(e);
                    },
                }
                if !self.goto(tables, index) {
                    return Err(AnalysisError::SyntaxError);
                }
            } else {
                return Err(AnalysisError::SyntaxError);
            }
            assert(step(tables@, text, c) == Ok::<Config, AnalysisError>(
                self.config(token_stream@.pos, curr_tok@),
            ));
            if self.syntatic_stack[self.syntatic_stack.len() - 1] == ACCEPTING_STATE {
                return Ok(true);
            }
            fuel -= 1;
        }
        Err(AnalysisError::SyntaxError)
    }
}

/// Analyses `program` with the given parsing tables: `Ok` if the program
/// is in the language of the grammar and breaks no rule of declaration,
/// scope or type, and else the first violation.
pub fn analyze(program: String, tables: &GrammarTables) -> (r: Result<(), AnalysisError>)
    ensures
        r == outcome(tables@, program@),
{
    let mut machine = StateMachine::new(program);
    match machine.parse(tables) {
        Ok(_) => Ok(()),
        Err(e) => Err(e),
    }
}

/// The configuration in which the analysis of `text` begins: the
/// automaton in its start state, no attribute yet, and the global block
/// open and empty.
pub open spec fn initial(text: Seq<char>) -> Config {
    Config {
        parse: start(text, seq![0usize], Seq::<char>::empty()),
        semantics: Semantics {
            attributes: Seq::<AttribView>::empty(),
            scopes: seq![Seq::<ObjectView>::empty()],
        },
    }
}

/// The result of the analysis of a program.
pub open spec fn outcome(tables: TablesView, text: Seq<char>) -> Result<(), AnalysisError> {
    match run(tables, text, initial(text), STEP_LIMIT as nat) {
        Ok(_) => Ok(()),
        Err(e) => Err(e),
    }
}

} // verus!
