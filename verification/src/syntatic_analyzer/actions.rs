use crate::syntatic_analyzer::errors::{AnalysisError, Arity, Construct, Role};
use crate::syntatic_analyzer::nonterminals::{AttribView, KindView, ObjectView, TypeView};
use crate::syntatic_analyzer::rules::Rules;
use crate::syntatic_analyzer::scope_analyzer::{
    array_type_decl, declare, define, end_block, find, func_type_decl, new_block, search,
    struct_type_decl, Block,
};
use crate::text::numeral_value;
use vstd::prelude::*;

verus! {

/// The binding that stands for a literal of the given type.
pub open spec fn literal(t: TypeView) -> ObjectView {
    ObjectView { name: Seq::empty(), kind: KindView::Scalar(t) }
}

/// Whether the top of the attribute stack holds, in order, attributes of
/// the nonterminals that the action of `rule` reads.
pub open spec fn aligned(attributes: Seq<AttribView>, rule: Rules) -> bool {
    let pattern = rule.pattern();
    &&& pattern.len() <= attributes.len()
    &&& forall|i: int|
        0 <= i < pattern.len() ==> (#[trigger] attributes[attributes.len() - pattern.len()
            + i]).symbol() == pattern[i]
}

/// The attributes that the action of `rule` reads: as many as its pattern
/// names, from the top of the stack, the topmost last.
pub open spec fn arguments(attributes: Seq<AttribView>, rule: Rules) -> Seq<AttribView> {
    attributes.subrange(attributes.len() - rule.pattern().len(), attributes.len() as int)
}

/// Every binding in the innermost block that bears the name of one of
/// `objects` receives `kind`, one name of the list after the other.
pub open spec fn declare_each(scopes: Seq<Block>, objects: Seq<ObjectView>, kind: KindView) -> Seq<
    Block,
>
    decreases objects.len(),
{
    if objects.len() == 0 {
        scopes
    } else {
        declare(declare_each(scopes, objects.drop_last(), kind), objects.last().name, kind)
    }
}

/// The types of the parameters among `objects`, in their order.
pub open spec fn param_types(objects: Seq<ObjectView>) -> Seq<TypeView>
    decreases objects.len(),
{
    if objects.len() == 0 {
        Seq::empty()
    } else {
        let before = param_types(objects.drop_last());
        match objects.last().kind {
            KindView::Param(t) => before.push(t),
            _ => before,
        }
    }
}

/// The index of the first field named `name` at or after `start`, or the
/// length of the list where the struct has no such field.
pub open spec fn first_field(fields: Seq<ObjectView>, name: Seq<char>, start: int) -> int
    decreases fields.len() - start,
{
    if start < 0 || start >= fields.len() {
        fields.len() as int
    } else if fields[start].name == name && fields[start].kind is Field {
        start
    } else {
        first_field(fields, name, start + 1)
    }
}

/// The type named by an identifier that resolves to `kind`.
pub open spec fn named_type(kind: KindView) -> Result<TypeView, AnalysisError> {
    match kind {
        KindView::Scalar(t) => Ok(t),
        KindView::Array(t) => Ok(t),
        KindView::Struct(t) => Ok(t),
        KindView::Alias(t) => Ok(t),
        _ => Err(AnalysisError::InvalidKind(Role::TypeName)),
    }
}

/// The type of the storage that an identifier of this kind denotes.
pub open spec fn stored_type(kind: KindView) -> Result<TypeView, AnalysisError> {
    match kind {
        KindView::Var(t) => Ok(t),
        KindView::Param(t) => Ok(t),
        _ => Err(AnalysisError::InvalidKind(Role::Lvalue)),
    }
}

/// The condition of a conditional or of a loop is a boolean.
pub open spec fn condition(t: TypeView, construct: Construct) -> Result<TypeView, AnalysisError> {
    if t == TypeView::Bool {
        Ok(t)
    } else {
        Err(AnalysisError::TypeMismatch(construct))
    }
}

/// Both sides of an assignment or of a comparison have the same type.
pub open spec fn agreeing(a: TypeView, b: TypeView, construct: Construct) -> Result<
    TypeView,
    AnalysisError,
> {
    if a == b {
        Ok(a)
    } else {
        Err(AnalysisError::TypeMismatch(construct))
    }
}

/// `&&` and `||` take two booleans and give a boolean.
pub open spec fn logical(a: TypeView, b: TypeView, construct: Construct) -> Result<
    TypeView,
    AnalysisError,
> {
    if a == TypeView::Bool && b == TypeView::Bool {
        Ok(TypeView::Bool)
    } else {
        Err(AnalysisError::InvalidOperandType(construct))
    }
}

/// A comparison takes two operands of one type, whichever it is, and gives a boolean.
pub open spec fn relational(a: TypeView, b: TypeView, construct: Construct) -> Result<
    TypeView,
    AnalysisError,
> {
    if a == b {
        Ok(TypeView::Bool)
    } else {
        Err(AnalysisError::TypeMismatch(construct))
    }
}

/// An arithmetic operator takes two operands of one type, which is the
/// integer type, or for `+` the string type too, and gives that type.
pub open spec fn arithmetic(a: TypeView, b: TypeView, construct: Construct) -> Result<
    TypeView,
    AnalysisError,
> {
    if a != b {
        Err(AnalysisError::TypeMismatch(construct))
    } else if a == TypeView::Int || (construct == Construct::Addition && a == TypeView::String) {
        Ok(a)
    } else {
        Err(AnalysisError::InvalidOperandType(construct))
    }
}

/// A unary operator takes an operand of one given type and gives that type.
pub open spec fn unary(t: TypeView, expected: TypeView, construct: Construct) -> Result<
    TypeView,
    AnalysisError,
> {
    if t == expected {
        Ok(expected)
    } else {
        Err(AnalysisError::InvalidOperandType(construct))
    }
}

/// The type of the field `name` of a value of type `base`.
pub open spec fn field_type(base: TypeView, name: Seq<char>) -> Result<TypeView, AnalysisError> {
    match base {
        TypeView::Struct(fields) => {
            let i = first_field(fields, name, 0);
            if i < fields.len() {
                Ok(fields[i].kind->Field_0)
            } else {
                Err(AnalysisError::StructFieldNotDeclared)
            }
        },
        _ => Err(AnalysisError::InvalidKind(Role::FieldList)),
    }
}

/// The type of an element of a value of type `base`, selected by an index of type `index`.
pub open spec fn element_type(base: TypeView, index: TypeView) -> Result<TypeView, AnalysisError> {
    match base {
        TypeView::String => if index == TypeView::Int {
            Ok(TypeView::Char)
        } else {
            Err(AnalysisError::InvalidOperandType(Construct::Index))
        },
        TypeView::Array(_, element) => if index == TypeView::Int {
            Ok(*element)
        } else {
            Err(AnalysisError::InvalidOperandType(Construct::Index))
        },
        _ => Err(AnalysisError::InvalidIndexTarget),
    }
}

/// The argument at position `position`, counted from 0, has the type of
/// the parameter at that position, and there is such a parameter.
pub open spec fn argument(params: Seq<TypeView>, position: nat, t: TypeView) -> Result<
    AttribView,
    AnalysisError,
> {
    if position >= params.len() {
        Err(AnalysisError::ArityMismatch(Arity::TooManyArguments))
    } else if t != params[position as int] {
        Err(AnalysisError::TypeMismatch(Construct::Argument((position + 1) as usize)))
    } else {
        Ok(AttribView::LE(params, position + 1))
    }
}

/// A call that has checked `given` arguments against `params` is complete.
pub open spec fn call(ret: TypeView, params: Seq<TypeView>, given: nat) -> Result<
    AttribView,
    AnalysisError,
> {
    if params.len() > given {
        Err(AnalysisError::ArityMismatch(Arity::TooFewArguments))
    } else {
        Ok(AttribView::F(ret))
    }
}

/// What the action of `rule` synthesizes from the attributes `a` that it
/// reads, and the scopes that it leaves; or the violation that it finds.
/// `lexeme` is the text of the last token that carried one.
pub open spec fn synthesize(
    rule: Rules,
    lexeme: Seq<char>,
    a: Seq<AttribView>,
    scopes: Seq<Block>,
) -> Result<(AttribView, Seq<Block>), AnalysisError> {
    match rule {
        Rules::P => Ok((AttribView::P, scopes)),
        Rules::LDE_LDE | Rules::LDE_DE => Ok((AttribView::LDE, scopes)),
        Rules::DE_DF | Rules::DE_DT => Ok((AttribView::DE, scopes)),
        Rules::T_INT => Ok((AttribView::T(TypeView::Int), scopes)),
        Rules::T_CHAR => Ok((AttribView::T(TypeView::Char), scopes)),
        Rules::T_BOOL => Ok((AttribView::T(TypeView::Bool), scopes)),
        Rules::T_STRING => Ok((AttribView::T(TypeView::String), scopes)),
        Rules::T_IDU => match named_type(a[0].object().kind) {
            Ok(t) => Ok((AttribView::T(t), scopes)),
            Err(e) => Err(e),
        },
        Rules::DT_ARRAY => {
            let size = a[1]->NUM_1;
            if size < 0 {
                Err(AnalysisError::InvalidArraySize)
            } else {
                Ok(
                    (
                        AttribView::DT,
                        array_type_decl(scopes, a[0].object().name, size as nat, a[2].ty()),
                    ),
                )
            }
        },
        Rules::DT_STRUCT => Ok((AttribView::DT, struct_type_decl(scopes, a[0].object().name))),
        Rules::DT_ALIAS => Ok(
            (AttribView::DT, declare(scopes, a[0].object().name, KindView::Alias(a[1].ty()))),
        ),
        Rules::DC_DC => Ok(
            (AttribView::DC, declare_each(scopes, a[1].objects(), KindView::Field(a[2].ty()))),
        ),
        Rules::DC_LI => Ok(
            (AttribView::DC, declare_each(scopes, a[0].objects(), KindView::Field(a[1].ty()))),
        ),
        Rules::DF => Ok((AttribView::DF, end_block(scopes))),
        Rules::LP_LP => {
            let kind = KindView::Param(a[2].ty());
            let name = a[1].object().name;
            Ok(
                (
                    AttribView::LP(a[0].objects().push(ObjectView { name, kind })),
                    declare(scopes, name, kind),
                ),
            )
        },
        Rules::LP_IDD => {
            let kind = KindView::Param(a[1].ty());
            let name = a[0].object().name;
            Ok((AttribView::LP(seq![ObjectView { name, kind }]), declare(scopes, name, kind)))
        },
        Rules::B => Ok((AttribView::B, scopes)),
        Rules::LDV_LDV | Rules::LDV_DV => Ok((AttribView::LDV, scopes)),
        Rules::LS_LS | Rules::LS_S => Ok((AttribView::LS, scopes)),
        Rules::DV => Ok(
            (AttribView::DV, declare_each(scopes, a[0].objects(), KindView::Var(a[1].ty()))),
        ),
        Rules::LI_LI => Ok((AttribView::LI(a[0].objects().push(a[1].object())), scopes)),
        Rules::LI_IDD => Ok((AttribView::LI(seq![a[0].object()]), scopes)),
        Rules::S_IF => match condition(a[0].ty(), Construct::If) {
            Ok(_) => Ok((AttribView::S, scopes)),
            Err(e) => Err(e),
        },
        Rules::S_IF_ELSE => match condition(a[0].ty(), Construct::IfElse) {
            Ok(_) => Ok((AttribView::S, scopes)),
            Err(e) => Err(e),
        },
        Rules::S_WHILE => match condition(a[1].ty(), Construct::While) {
            Ok(_) => Ok((AttribView::S, scopes)),
            Err(e) => Err(e),
        },
        Rules::S_DO_WHILE => match condition(a[2].ty(), Construct::DoWhile) {
            Ok(_) => Ok((AttribView::S, scopes)),
            Err(e) => Err(e),
        },
        Rules::S_NB => Ok((AttribView::S, end_block(scopes))),
        Rules::S_LV => match agreeing(a[0].ty(), a[1].ty(), Construct::Assignment) {
            Ok(_) => Ok((AttribView::S, scopes)),
            Err(e) => Err(e),
        },
        Rules::S_BREAK | Rules::S_CONTINUE => Ok((AttribView::S, scopes)),
        Rules::E_AND => match logical(a[0].ty(), a[1].ty(), Construct::And) {
            Ok(t) => Ok((AttribView::E(t), scopes)),
            Err(e) => Err(e),
        },
        Rules::E_OR => match logical(a[0].ty(), a[1].ty(), Construct::Or) {
            Ok(t) => Ok((AttribView::E(t), scopes)),
            Err(e) => Err(e),
        },
        Rules::E_L => Ok((AttribView::E(a[0].ty()), scopes)),
        Rules::L_LESS_THAN => match relational(a[0].ty(), a[1].ty(), Construct::LessThan) {
            Ok(t) => Ok((AttribView::L(t), scopes)),
            Err(e) => Err(e),
        },
        Rules::L_GREATER_THAN => match relational(a[0].ty(), a[1].ty(), Construct::GreaterThan) {
            Ok(t) => Ok((AttribView::L(t), scopes)),
            Err(e) => Err(e),
        },
        Rules::L_LESS_EQUAL => match relational(a[0].ty(), a[1].ty(), Construct::LessOrEqual) {
            Ok(t) => Ok((AttribView::L(t), scopes)),
            Err(e) => Err(e),
        },
        Rules::L_GREATER_EQUAL => match relational(
            a[0].ty(),
            a[1].ty(),
            Construct::GreaterOrEqual,
        ) {
            Ok(t) => Ok((AttribView::L(t), scopes)),
            Err(e) => Err(e),
        },
        Rules::L_EQUAL_EQUAL => match relational(a[0].ty(), a[1].ty(), Construct::EqualEqual) {
            Ok(t) => Ok((AttribView::L(t), scopes)),
            Err(e) => Err(e),
        },
        Rules::L_NOT_EQUAL => match relational(a[0].ty(), a[1].ty(), Construct::NotEqual) {
            Ok(t) => Ok((AttribView::L(t), scopes)),
            Err(e) => Err(e),
        },
        Rules::L_R => Ok((AttribView::L(a[0].ty()), scopes)),
        Rules::R_PLUS => match arithmetic(a[0].ty(), a[1].ty(), Construct::Addition) {
            Ok(t) => Ok((AttribView::R(t), scopes)),
            Err(e) => Err(e),
        },
        Rules::R_MINUS => match arithmetic(a[0].ty(), a[1].ty(), Construct::Subtraction) {
            Ok(t) => Ok((AttribView::R(t), scopes)),
            Err(e) => Err(e),
        },
        Rules::R_Y => Ok((AttribView::R(a[0].ty()), scopes)),
        Rules::Y_TIMES => match arithmetic(a[0].ty(), a[1].ty(), Construct::Multiplication) {
            Ok(t) => Ok((AttribView::Y(t), scopes)),
            Err(e) => Err(e),
        },
        Rules::Y_DIVIDE => match arithmetic(a[0].ty(), a[1].ty(), Construct::Division) {
            Ok(t) => Ok((AttribView::Y(t), scopes)),
            Err(e) => Err(e),
        },
        Rules::Y_F => Ok((AttribView::Y(a[0].ty()), scopes)),
        Rules::F_LV => Ok((AttribView::F(a[0].ty()), scopes)),
        Rules::F_PLUSPLUS => match unary(a[0].ty(), TypeView::Int, Construct::PreIncrement) {
            Ok(t) => Ok((AttribView::F(t), scopes)),
            Err(e) => Err(e),
        },
        Rules::F_MINUSMINUS => match unary(a[0].ty(), TypeView::Int, Construct::PreDecrement) {
            Ok(t) => Ok((AttribView::F(t), scopes)),
            Err(e) => Err(e),
        },
        Rules::F_LV_PLUSPLUS => match unary(a[0].ty(), TypeView::Int, Construct::PostIncrement) {
            Ok(t) => Ok((AttribView::F(t), scopes)),
            Err(e) => Err(e),
        },
        Rules::F_LV_MINUSMINUS => match unary(a[0].ty(), TypeView::Int, Construct::PostDecrement) {
            Ok(t) => Ok((AttribView::F(t), scopes)),
            Err(e) => Err(e),
        },
        Rules::F_PAR_E_PAR => Ok((AttribView::F(a[0].ty()), scopes)),
        Rules::F_FUNC_CALL => match call(a[1]->MC_0, a[2]->LE_0, a[2]->LE_1) {
            Ok(f) => Ok((f, scopes)),
            Err(e) => Err(e),
        },
        Rules::F_FUNC_CALL_EMPTY => match call(a[1]->MC_0, a[1]->MC_1, 0) {
            Ok(f) => Ok((f, scopes)),
            Err(e) => Err(e),
        },
        Rules::F_NEGATIVE => match unary(a[0].ty(), TypeView::Int, Construct::Negation) {
            Ok(t) => Ok((AttribView::F(t), scopes)),
            Err(e) => Err(e),
        },
        Rules::F_NOT => match unary(a[0].ty(), TypeView::Bool, Construct::Not) {
            Ok(t) => Ok((AttribView::F(t), scopes)),
            Err(e) => Err(e),
        },
        Rules::F_TRUE | Rules::F_FALSE => Ok((AttribView::F(TypeView::Bool), scopes)),
        Rules::F_C => Ok((AttribView::F(TypeView::Char), scopes)),
        Rules::F_STR => Ok((AttribView::F(TypeView::String), scopes)),
        Rules::F_NUM => Ok((AttribView::F(TypeView::Int), scopes)),
        Rules::LE_LE => match argument(a[0]->LE_0, a[0]->LE_1, a[1].ty()) {
            Ok(le) => Ok((le, scopes)),
            Err(e) => Err(e),
        },
        Rules::LE_E => match argument(a[0]->MC_1, 0, a[1].ty()) {
            Ok(le) => Ok((le, scopes)),
            Err(e) => Err(e),
        },
        Rules::LV_STRUCT => match field_type(a[0].ty(), a[1].object().name) {
            Ok(t) => Ok((AttribView::LV(t), scopes)),
            Err(e) => Err(e),
        },
        Rules::LV_ARR => match element_type(a[0].ty(), a[1].ty()) {
            Ok(t) => Ok((AttribView::LV(t), scopes)),
            Err(e) => Err(e),
        },
        Rules::LV_IDU => match stored_type(a[0].object().kind) {
            Ok(t) => Ok((AttribView::LV(t), scopes)),
            Err(e) => Err(e),
        },
        Rules::IDD => if search(scopes, lexeme) is Some {
            Err(AnalysisError::IdentifierRedeclared)
        } else {
            Ok(
                (
                    AttribView::IDD(ObjectView { name: lexeme, kind: KindView::Unbound }),
                    define(scopes, lexeme),
                ),
            )
        },
        Rules::IDU => match find(scopes, lexeme) {
            Some(o) => Ok((AttribView::IDU(o), scopes)),
            None => Err(AnalysisError::IdentifierNotDeclared),
        },
        Rules::ID => Ok(
            (AttribView::ID(ObjectView { name: lexeme, kind: KindView::Unbound }), scopes),
        ),
        Rules::TRUE => Ok((AttribView::TRUE(literal(TypeView::Bool), true), scopes)),
        Rules::FALSE => Ok((AttribView::FALSE(literal(TypeView::Bool), false), scopes)),
        Rules::C => if lexeme.len() > 0 {
            Ok((AttribView::CHR(literal(TypeView::Char), lexeme[0]), scopes))
        } else {
            Err(AnalysisError::SyntaxError)
        },
        Rules::STR => Ok((AttribView::STR(literal(TypeView::String), lexeme), scopes)),
        Rules::NUM => match numeral_value(lexeme) {
            Some(n) => Ok((AttribView::NUM(literal(TypeView::Int), n), scopes)),
            None => Err(AnalysisError::SyntaxError),
        },
        Rules::NB => Ok((AttribView::NB, new_block(scopes))),
        Rules::NF => Ok((AttribView::NF, new_block(scopes))),
        Rules::MF => Ok(
            (
                AttribView::MF,
                func_type_decl(
                    scopes,
                    a[0].object().name,
                    a[3].ty(),
                    param_types(a[2].objects()),
                ),
            ),
        ),
        Rules::MC => match a[0].object().kind {
            KindView::Function(ret, params) => Ok((AttribView::MC(ret, params), scopes)),
            _ => Err(AnalysisError::InvalidKind(Role::Callable)),
        },
        Rules::MT => Ok((AttribView::MT, scopes)),
        Rules::ME => Ok((AttribView::ME, scopes)),
        Rules::MW => Ok((AttribView::MW, scopes)),
    }
}

/// What the semantic actions work on: the attribute stack, bottom first,
/// and the open blocks, outermost first.
pub struct Semantics {
    pub attributes: Seq<AttribView>,
    pub scopes: Seq<Block>,
}

/// The reduction by `rule`. Where the stack does not hold what the
/// right-hand side derives, the reduction is no step of a derivation and
/// fails as a syntax error. Otherwise the attributes of the right-hand side
/// leave the stack, and the one that the action synthesizes takes their place.
pub open spec fn reduce(rule: Rules, lexeme: Seq<char>, s: Semantics) -> Result<
    Semantics,
    AnalysisError,
> {
    if !aligned(s.attributes, rule) {
        Err(AnalysisError::SyntaxError)
    } else {
        match synthesize(rule, lexeme, arguments(s.attributes, rule), s.scopes) {
            Ok((attribute, scopes)) => Ok(
                Semantics {
                    attributes: s.attributes.take(s.attributes.len() - rule.consumed()).push(
                        attribute,
                    ),
                    scopes,
                },
            ),
            Err(e) => Err(e),
        }
    }
}

} // verus!
