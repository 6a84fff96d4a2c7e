use vstd::prelude::*;

verus! {

/// The construct whose operands or condition have the wrong type.
#[derive(Debug, Clone, Copy, PartialEq, Eq, Structural)]
pub enum Construct {
    If,
    IfElse,
    While,
    DoWhile,
    Assignment,
    And,
    Or,
    LessThan,
    GreaterThan,
    LessOrEqual,
    GreaterOrEqual,
    EqualEqual,
    NotEqual,
    Addition,
    Subtraction,
    Multiplication,
    Division,
    Negation,
    Not,
    PreIncrement,
    PreDecrement,
    PostIncrement,
    PostDecrement,
    Index,
    /// The argument at this position of a call, counted from 1.
    Argument(usize),
}

/// The role in which an identifier was used although its kind does not support it.
#[derive(Debug, Clone, Copy, PartialEq, Eq, Structural)]
pub enum Role {
    /// Called, but not a function.
    Callable,
    /// Used as a left-value, but neither a variable nor a parameter.
    Lvalue,
    /// Used as a type, but not the name of a type.
    TypeName,
    /// A field was selected from it, but its type is not a struct.
    FieldList,
}

/// How the number of arguments of a call differs from the number of parameters.
#[derive(Debug, Clone, Copy, PartialEq, Eq, Structural)]
pub enum Arity {
    TooFewArguments,
    TooManyArguments,
}

/// The first violation found in a program. Every error ends the analysis.
#[derive(Debug, Clone, Copy, PartialEq, Eq, Structural)]
pub enum AnalysisError {
    /// The automaton cannot continue: the program is not in the language of the grammar.
    SyntaxError,
    /// A name is declared twice in one block.
    IdentifierRedeclared,
    /// A name is used that no visible block declares.
    IdentifierNotDeclared,
    /// Two types that have to agree differ.
    TypeMismatch(Construct),
    /// The operands agree but the operator does not take their type.
    InvalidOperandType(Construct),
    InvalidKind(Role),
    /// A field is selected that the struct type does not declare.
    StructFieldNotDeclared,
    /// A value is indexed that is neither a string nor an array.
    InvalidIndexTarget,
    /// An array is declared with a negative size.
    InvalidArraySize,
    ArityMismatch(Arity),
}

} // verus!
