use crate::syntatic_analyzer::actions::{
    aligned, arguments, field_type, first_field, reduce, synthesize, Semantics,
};
use crate::syntatic_analyzer::engine::{
    accepting, advance, check, derivation, recognizes, run, Config, Move, Reduction, STEP_LIMIT,
};
use crate::syntatic_analyzer::errors::AnalysisError;
use crate::syntatic_analyzer::nonterminals::{AttribView, KindView, ObjectView, TypeView};
use crate::syntatic_analyzer::rules::Rules;
use crate::syntatic_analyzer::scope_analyzer::{
    declare, end_block, find, first_from, lemma_first_from, new_block, rebind_first, search,
    struct_type_decl, Block,
};
use crate::syntatic_analyzer::tables::TablesView;
use crate::syntatic_analyzer::{initial, outcome};
use vstd::prelude::*;

verus! {

/// The analysis does what the automaton does, and the semantic actions
/// decide only whether it goes on: its result is the first violation that
/// the actions of the automaton's reductions find, and where they find
/// none, it is success if the automaton accepts and a syntax error if not.
pub proof fn lemma_analysis_follows_derivation(
    tables: TablesView,
    text: Seq<char>,
    c: Config,
    fuel: nat,
)
    ensures
        match check(derivation(tables, text, c.parse, fuel), c.semantics) {
            Ok(_) => if recognizes(tables, text, c.parse, fuel) {
                run(tables, text, c, fuel) is Ok
            } else {
                run(tables, text, c, fuel) == Err::<Config, AnalysisError>(
                    AnalysisError::SyntaxError,
                )
            },
            Err(e) => run(tables, text, c, fuel) == Err::<Config, AnalysisError>(e),
        },
    decreases fuel,
{
    let all = derivation(tables, text, c.parse, fuel);
    if fuel > 0 {
        match advance(tables, text, c.parse) {
            Move::Shift(next) => {
                if !accepting(next) {
                    lemma_analysis_follows_derivation(
                        tables,
                        text,
                        Config { parse: next, semantics: c.semantics },
                        (fuel - 1) as nat,
                    );
                }
            },
            Move::Reduce(rule, lexeme, after) => {
                let this = seq![Reduction { rule, lexeme }];
                assert(all.len() > 0 && all[0] == this[0]);
                match reduce(rule, lexeme, c.semantics) {
                    Ok(semantics) => {
                        match after {
                            Some(next) => {
                                if accepting(next) {
                                    assert(all.drop_first() =~= Seq::<Reduction>::empty());
                                } else {
                                    let rest = derivation(tables, text, next, (fuel - 1) as nat);
                                    assert(all.drop_first() =~= rest);
                                    lemma_analysis_follows_derivation(
                                        tables,
                                        text,
                                        Config { parse: next, semantics },
                                        (fuel - 1) as nat,
                                    );
                                }
                            },
                            None => {
                                assert(all.drop_first() =~= Seq::<Reduction>::empty());
                            },
                        }
                        assert(check(all, c.semantics) == check(all.drop_first(), semantics));
                    },
                    Err(e) => {
                        assert(check(all, c.semantics) == Err::<Semantics, AnalysisError>(e));
                    },
                }
            },
            Move::Fail => {},
        }
    }
}

/// A program that is in the language of the grammar is accepted if and
/// only if every semantic action of its derivation succeeds: if every
/// identifier is declared before its use and once in its block, every use
/// resolves in a visible block, and every statement, operator and call
/// has operands of the types that it takes. Otherwise the analysis fails
/// with the violation that the first failing action finds.
pub proof fn lemma_accepted_iff_actions_succeed(tables: TablesView, text: Seq<char>)
    requires
        recognizes(tables, text, initial(text).parse, STEP_LIMIT as nat),
    ensures
        outcome(tables, text) is Ok <==> check(
            derivation(tables, text, initial(text).parse, STEP_LIMIT as nat),
            initial(text).semantics,
        ) is Ok,
        check(
            derivation(tables, text, initial(text).parse, STEP_LIMIT as nat),
            initial(text).semantics,
        ) matches Err(e) ==> outcome(tables, text) == Err::<(), AnalysisError>(e),
{
    lemma_analysis_follows_derivation(tables, text, initial(text), STEP_LIMIT as nat);
}

/// A program that is not in the language of the grammar is never
/// accepted: it fails with a syntax error, unless a semantic action finds
/// a violation before the automaton gives up.
pub proof fn lemma_unrecognized_is_rejected(tables: TablesView, text: Seq<char>)
    requires
        !recognizes(tables, text, initial(text).parse, STEP_LIMIT as nat),
    ensures
        outcome(tables, text) is Err,
        check(
            derivation(tables, text, initial(text).parse, STEP_LIMIT as nat),
            initial(text).semantics,
        ) is Ok ==> outcome(tables, text) == Err::<(), AnalysisError>(AnalysisError::SyntaxError),
{
    lemma_analysis_follows_derivation(tables, text, initial(text), STEP_LIMIT as nat);
}

/// The attributes that a reduction takes off the stack are among those
/// that its action reads.
pub proof fn lemma_consumed_in_pattern(rule: Rules)
    ensures
        rule.consumed() <= rule.pattern().len(),
{
    match rule {
        Rules::P => {},
        Rules::LDE_LDE => {},
        Rules::LDE_DE => {},
        Rules::DE_DF => {},
        Rules::DE_DT => {},
        Rules::T_INT => {},
        Rules::T_CHAR => {},
        Rules::T_BOOL => {},
        Rules::T_STRING => {},
        Rules::T_IDU => {},
        Rules::DT_ARRAY => {},
        Rules::DT_STRUCT => {},
        Rules::DT_ALIAS => {},
        Rules::DC_DC => {},
        Rules::DC_LI => {},
        Rules::DF => {},
        Rules::LP_LP => {},
        Rules::LP_IDD => {},
        Rules::B => {},
        Rules::LDV_LDV => {},
        Rules::LDV_DV => {},
        Rules::LS_LS => {},
        Rules::LS_S => {},
        Rules::DV => {},
        Rules::LI_LI => {},
        Rules::LI_IDD => {},
        Rules::S_IF => {},
        Rules::S_IF_ELSE => {},
        Rules::S_WHILE => {},
        Rules::S_DO_WHILE => {},
        Rules::S_NB => {},
        Rules::S_LV => {},
        Rules::S_BREAK => {},
        Rules::S_CONTINUE => {},
        Rules::E_AND => {},
        Rules::E_OR => {},
        Rules::E_L => {},
        Rules::L_LESS_THAN => {},
        Rules::L_GREATER_THAN => {},
        Rules::L_LESS_EQUAL => {},
        Rules::L_GREATER_EQUAL => {},
        Rules::L_EQUAL_EQUAL => {},
        Rules::L_NOT_EQUAL => {},
        Rules::L_R => {},
        Rules::R_PLUS => {},
        Rules::R_MINUS => {},
        Rules::R_Y => {},
        Rules::Y_TIMES => {},
        Rules::Y_DIVIDE => {},
        Rules::Y_F => {},
        Rules::F_LV => {},
        Rules::F_PLUSPLUS => {},
        Rules::F_MINUSMINUS => {},
        Rules::F_LV_PLUSPLUS => {},
        Rules::F_LV_MINUSMINUS => {},
        Rules::F_PAR_E_PAR => {},
        Rules::F_FUNC_CALL => {},
        Rules::F_FUNC_CALL_EMPTY => {},
        Rules::F_NEGATIVE => {},
        Rules::F_NOT => {},
        Rules::F_TRUE => {},
        Rules::F_FALSE => {},
        Rules::F_C => {},
        Rules::F_STR => {},
        Rules::F_NUM => {},
        Rules::LE_LE => {},
        Rules::LE_E => {},
        Rules::LV_STRUCT => {},
        Rules::LV_ARR => {},
        Rules::LV_IDU => {},
        Rules::IDD => {},
        Rules::IDU => {},
        Rules::ID => {},
        Rules::TRUE => {},
        Rules::FALSE => {},
        Rules::C => {},
        Rules::STR => {},
        Rules::NUM => {},
        Rules::NB => {},
        Rules::NF => {},
        Rules::MF => {},
        Rules::MC => {},
        Rules::MT => {},
        Rules::ME => {},
        Rules::MW => {},
    }
}

/// The attribute that an action synthesizes belongs to the nonterminal on
/// the left-hand side of its production.
pub proof fn lemma_synthesized_for_left_side(
    rule: Rules,
    lexeme: Seq<char>,
    a: Seq<AttribView>,
    scopes: Seq<Block>,
)
    requires
        synthesize(rule, lexeme, a, scopes) is Ok,
    ensures
        synthesize(rule, lexeme, a, scopes)->Ok_0.0.symbol() == rule.left(),
{
    match rule {
        Rules::P => {},
        Rules::LDE_LDE => {},
        Rules::LDE_DE => {},
        Rules::DE_DF => {},
        Rules::DE_DT => {},
        Rules::T_INT => {},
        Rules::T_CHAR => {},
        Rules::T_BOOL => {},
        Rules::T_STRING => {},
        Rules::T_IDU => {},
        Rules::DT_ARRAY => {},
        Rules::DT_STRUCT => {},
        Rules::DT_ALIAS => {},
        Rules::DC_DC => {},
        Rules::DC_LI => {},
        Rules::DF => {},
        Rules::LP_LP => {},
        Rules::LP_IDD => {},
        Rules::B => {},
        Rules::LDV_LDV => {},
        Rules::LDV_DV => {},
        Rules::LS_LS => {},
        Rules::LS_S => {},
        Rules::DV => {},
        Rules::LI_LI => {},
        Rules::LI_IDD => {},
        Rules::S_IF => {},
        Rules::S_IF_ELSE => {},
        Rules::S_WHILE => {},
        Rules::S_DO_WHILE => {},
        Rules::S_NB => {},
        Rules::S_LV => {},
        Rules::S_BREAK => {},
        Rules::S_CONTINUE => {},
        Rules::E_AND => {},
        Rules::E_OR => {},
        Rules::E_L => {},
        Rules::L_LESS_THAN => {},
        Rules::L_GREATER_THAN => {},
        Rules::L_LESS_EQUAL => {},
        Rules::L_GREATER_EQUAL => {},
        Rules::L_EQUAL_EQUAL => {},
        Rules::L_NOT_EQUAL => {},
        Rules::L_R => {},
        Rules::R_PLUS => {},
        Rules::R_MINUS => {},
        Rules::R_Y => {},
        Rules::Y_TIMES => {},
        Rules::Y_DIVIDE => {},
        Rules::Y_F => {},
        Rules::F_LV => {},
        Rules::F_PLUSPLUS => {},
        Rules::F_MINUSMINUS => {},
        Rules::F_LV_PLUSPLUS => {},
        Rules::F_LV_MINUSMINUS => {},
        Rules::F_PAR_E_PAR => {},
        Rules::F_FUNC_CALL => {},
        Rules::F_FUNC_CALL_EMPTY => {},
        Rules::F_NEGATIVE => {},
        Rules::F_NOT => {},
        Rules::F_TRUE => {},
        Rules::F_FALSE => {},
        Rules::F_C => {},
        Rules::F_STR => {},
        Rules::F_NUM => {},
        Rules::LE_LE => {},
        Rules::LE_E => {},
        Rules::LV_STRUCT => {},
        Rules::LV_ARR => {},
        Rules::LV_IDU => {},
        Rules::IDD => {},
        Rules::IDU => {},
        Rules::ID => {},
        Rules::TRUE => {},
        Rules::FALSE => {},
        Rules::C => {},
        Rules::STR => {},
        Rules::NUM => {},
        Rules::NB => {},
        Rules::NF => {},
        Rules::MF => {},
        Rules::MC => {},
        Rules::MT => {},
        Rules::ME => {},
        Rules::MW => {},
    }
}

/// A reduction takes as many attributes off the stack as the right-hand
/// side of its production has nonterminals, leaves what lies below them,
/// and puts one attribute in their place, which belongs to the
/// nonterminal on the left-hand side.
pub proof fn lemma_reduction_keeps_alignment(rule: Rules, lexeme: Seq<char>, s: Semantics)
    requires
        reduce(rule, lexeme, s) is Ok,
    ensures
        rule.consumed() <= s.attributes.len(),
        reduce(rule, lexeme, s)->Ok_0.attributes.len() == s.attributes.len() - rule.consumed() + 1,
        reduce(rule, lexeme, s)->Ok_0.attributes.drop_last() == s.attributes.take(
            s.attributes.len() - rule.consumed(),
        ),
        reduce(rule, lexeme, s)->Ok_0.attributes.last().symbol() == rule.left(),
{
    let after = reduce(rule, lexeme, s)->Ok_0;
    let kept = s.attributes.take(s.attributes.len() - rule.consumed());
    lemma_synthesized_for_left_side(rule, lexeme, arguments(s.attributes, rule), s.scopes);
    assert(rule.consumed() <= rule.pattern().len()) by {
        lemma_consumed_in_pattern(rule);
    }
    assert(after.attributes.drop_last() =~= kept);
}

/// A name that is declared in a block of its own hides what the outer
/// blocks declare: the declaration succeeds whatever they hold, and a
/// use of the name resolves to the new binding, before and after it has
/// received its kind.
pub proof fn lemma_nested_declaration_shadows(
    s: Semantics,
    name: Seq<char>,
    lexeme: Seq<char>,
    kind: KindView,
)
    ensures
        reduce(Rules::NB, lexeme, s) is Ok,
        reduce(Rules::IDD, name, reduce(Rules::NB, lexeme, s)->Ok_0) is Ok,
        find(
            reduce(Rules::IDD, name, reduce(Rules::NB, lexeme, s)->Ok_0)->Ok_0.scopes,
            name,
        ) == Some(ObjectView { name, kind: KindView::Unbound }),
        find(
            declare(
                reduce(Rules::IDD, name, reduce(Rules::NB, lexeme, s)->Ok_0)->Ok_0.scopes,
                name,
                kind,
            ),
            name,
        ) == Some(ObjectView { name, kind }),
{
    let inner = reduce(Rules::NB, lexeme, s)->Ok_0;
    assert(inner.scopes == new_block(s.scopes));
    assert(inner.scopes.last() =~= Seq::<ObjectView>::empty());
    let declared = reduce(Rules::IDD, name, inner)->Ok_0;
    let unbound = ObjectView { name, kind: KindView::Unbound };
    assert(declared.scopes.last() =~= seq![unbound]);
    let bound = declare(declared.scopes, name, kind);
    assert(bound.last() =~= seq![ObjectView { name, kind }]);
}

/// A name that the innermost block declares cannot be declared in it
/// again: the second declaration fails, right after the first and at any
/// later time while the block holds the name.
pub proof fn lemma_redeclaration_fails(s: Semantics, name: Seq<char>)
    requires
        s.scopes.len() > 0,
    ensures
        search(s.scopes, name) is Some ==> reduce(Rules::IDD, name, s) == Err::<
            Semantics,
            AnalysisError,
        >(AnalysisError::IdentifierRedeclared),
        reduce(Rules::IDD, name, s) matches Ok(declared) ==> reduce(Rules::IDD, name, declared)
            == Err::<Semantics, AnalysisError>(AnalysisError::IdentifierRedeclared),
{
    if reduce(Rules::IDD, name, s) is Ok {
        let declared = reduce(Rules::IDD, name, s)->Ok_0;
        let block = declared.scopes.last();
        assert(block == s.scopes.last().push(ObjectView { name, kind: KindView::Unbound }));
        lemma_first_from(block, name, 0);
        assert(block[block.len() - 1].name == name);
    }
}

/// The attributes and scopes after the identifiers `objects`, one after
/// the other, have been collected in a list: each is put on the stack as
/// declared and reduced into the list, the first by the production that
/// starts a list, the others by the one that appends.
pub open spec fn listed(s: Semantics, objects: Seq<ObjectView>, lexeme: Seq<char>) -> Result<
    Semantics,
    AnalysisError,
>
    decreases objects.len(),
{
    if objects.len() == 0 {
        Ok(s)
    } else if objects.len() == 1 {
        reduce(
            Rules::LI_IDD,
            lexeme,
            Semantics {
                attributes: s.attributes.push(AttribView::IDD(objects[0])),
                scopes: s.scopes,
            },
        )
    } else {
        match listed(s, objects.drop_last(), lexeme) {
            Ok(before) => reduce(
                Rules::LI_LI,
                lexeme,
                Semantics {
                    attributes: before.attributes.push(AttribView::IDD(objects.last())),
                    scopes: before.scopes,
                },
            ),
            Err(e) => Err(e),
        }
    }
}

/// A list of identifiers holds its bindings in source order: the
/// reductions that build it from the left leave one attribute, which
/// carries the identifiers in the order in which they came.
pub proof fn lemma_identifier_list_in_source_order(
    s: Semantics,
    objects: Seq<ObjectView>,
    lexeme: Seq<char>,
)
    requires
        objects.len() > 0,
    ensures
        listed(s, objects, lexeme) == Ok::<Semantics, AnalysisError>(
            Semantics { attributes: s.attributes.push(AttribView::LI(objects)), scopes: s.scopes },
        ),
    decreases objects.len(),
{
    if objects.len() == 1 {
        let pushed = s.attributes.push(AttribView::IDD(objects[0]));
        assert(pushed[pushed.len() - 1 + 0].symbol() == Rules::LI_IDD.pattern()[0]);
        assert(aligned(pushed, Rules::LI_IDD));
        assert(arguments(pushed, Rules::LI_IDD)[0] == AttribView::IDD(objects[0]));
        assert(pushed.take(pushed.len() - 1) =~= s.attributes);
        assert(seq![objects[0]] =~= objects);
    } else {
        let prefix = objects.drop_last();
        lemma_identifier_list_in_source_order(s, prefix, lexeme);
        let before = s.attributes.push(AttribView::LI(prefix));
        let pushed = before.push(AttribView::IDD(objects.last()));
        assert(pushed[pushed.len() - 2 + 0].symbol() == Rules::LI_LI.pattern()[0]);
        assert(pushed[pushed.len() - 2 + 1].symbol() == Rules::LI_LI.pattern()[1]);
        assert(aligned(pushed, Rules::LI_LI));
        assert(arguments(pushed, Rules::LI_LI)[0] == AttribView::LI(prefix));
        assert(arguments(pushed, Rules::LI_LI)[1] == AttribView::IDD(objects.last()));
        assert(pushed.take(pushed.len() - 2) =~= s.attributes);
        assert(prefix.push(objects.last()) =~= objects);
    }
}

/// The parameters with the names of `objects` and the types `types`, in their order.
pub open spec fn params(objects: Seq<ObjectView>, types: Seq<TypeView>) -> Seq<ObjectView> {
    Seq::new(
        objects.len(),
        |i: int| ObjectView { name: objects[i].name, kind: KindView::Param(types[i]) },
    )
}

/// The attributes and scopes after the parameters with the names of
/// `objects` and the types `types` have been declared one after the
/// other: each is put on the stack as a declared identifier and a type
/// and reduced into the list of parameters.
pub open spec fn parameters(
    s: Semantics,
    objects: Seq<ObjectView>,
    types: Seq<TypeView>,
    lexeme: Seq<char>,
) -> Result<Semantics, AnalysisError>
    decreases objects.len(),
{
    if objects.len() == 0 || types.len() != objects.len() {
        Ok(s)
    } else if objects.len() == 1 {
        reduce(
            Rules::LP_IDD,
            lexeme,
            Semantics {
                attributes: s.attributes.push(AttribView::IDD(objects[0])).push(
                    AttribView::T(types[0]),
                ),
                scopes: s.scopes,
            },
        )
    } else {
        match parameters(s, objects.drop_last(), types.drop_last(), lexeme) {
            Ok(before) => reduce(
                Rules::LP_LP,
                lexeme,
                Semantics {
                    attributes: before.attributes.push(AttribView::IDD(objects.last())).push(
                        AttribView::T(types.last()),
                    ),
                    scopes: before.scopes,
                },
            ),
            Err(e) => Err(e),
        }
    }
}

/// A list of parameters holds its bindings in source order, each with
/// the type that was declared for it.
pub proof fn lemma_parameter_list_in_source_order(
    s: Semantics,
    objects: Seq<ObjectView>,
    types: Seq<TypeView>,
    lexeme: Seq<char>,
)
    requires
        objects.len() > 0,
        types.len() == objects.len(),
    ensures
        parameters(s, objects, types, lexeme) is Ok,
        parameters(s, objects, types, lexeme)->Ok_0.attributes == s.attributes.push(
            AttribView::LP(params(objects, types)),
        ),
    decreases objects.len(),
{
    if objects.len() == 1 {
        let pushed = s.attributes.push(AttribView::IDD(objects[0])).push(AttribView::T(types[0]));
        assert(pushed[pushed.len() - 2 + 0].symbol() == Rules::LP_IDD.pattern()[0]);
        assert(pushed[pushed.len() - 2 + 1].symbol() == Rules::LP_IDD.pattern()[1]);
        assert(aligned(pushed, Rules::LP_IDD));
        assert(arguments(pushed, Rules::LP_IDD)[0] == AttribView::IDD(objects[0]));
        assert(arguments(pushed, Rules::LP_IDD)[1] == AttribView::T(types[0]));
        assert(pushed.take(pushed.len() - 2) =~= s.attributes);
        assert(seq![
            ObjectView { name: objects[0].name, kind: KindView::Param(types[0]) },
        ] =~= params(objects, types));
    } else {
        let names = objects.drop_last();
        let earlier = types.drop_last();
        lemma_parameter_list_in_source_order(s, names, earlier, lexeme);
        let before = parameters(s, names, earlier, lexeme)->Ok_0;
        let pushed = before.attributes.push(AttribView::IDD(objects.last())).push(
            AttribView::T(types.last()),
        );
        assert(pushed[pushed.len() - 3 + 0].symbol() == Rules::LP_LP.pattern()[0]);
        assert(pushed[pushed.len() - 3 + 1].symbol() == Rules::LP_LP.pattern()[1]);
        assert(pushed[pushed.len() - 3 + 2].symbol() == Rules::LP_LP.pattern()[2]);
        assert(aligned(pushed, Rules::LP_LP));
        assert(arguments(pushed, Rules::LP_LP)[0] == AttribView::LP(params(names, earlier)));
        assert(arguments(pushed, Rules::LP_LP)[1] == AttribView::IDD(objects.last()));
        assert(arguments(pushed, Rules::LP_LP)[2] == AttribView::T(types.last()));
        assert(pushed.take(pushed.len() - 3) =~= s.attributes);
        assert(params(names, earlier).push(
            ObjectView { name: objects.last().name, kind: KindView::Param(types.last()) },
        ) =~= params(objects, types));
    }
}

/// Where no binding from `start` on is a field named `name`, the search
/// for the field runs to the end of the list.
pub proof fn lemma_no_field(fields: Seq<ObjectView>, name: Seq<char>, start: int)
    requires
        0 <= start <= fields.len(),
        forall|i: int|
            start <= i < fields.len() ==> !((#[trigger] fields[i]).name == name
                && fields[i].kind is Field),
    ensures
        first_field(fields, name, start) == fields.len(),
    decreases fields.len() - start,
{
    if start < fields.len() {
        lemma_no_field(fields, name, start + 1);
    }
}

/// Where a binding from `start` on is a field named `name`, the search
/// finds the first such binding.
pub proof fn lemma_some_field(fields: Seq<ObjectView>, name: Seq<char>, start: int, at: int)
    requires
        0 <= start <= at < fields.len(),
        fields[at].name == name,
        fields[at].kind is Field,
    ensures
        start <= first_field(fields, name, start) <= at,
        fields[first_field(fields, name, start)].name == name,
        fields[first_field(fields, name, start)].kind is Field,
    decreases at - start,
{
    if !(fields[start].name == name && fields[start].kind is Field) {
        lemma_some_field(fields, name, start + 1, at);
    }
}

/// The selection of a field that a struct type does not declare fails,
/// however many fields the type has and in whatever order; the
/// selection of a field that it declares succeeds, wherever the field
/// stands in the declaration.
pub proof fn lemma_field_access_by_name(fields: Seq<ObjectView>, name: Seq<char>)
    ensures
        (forall|i: int| 0 <= i < fields.len() ==> (#[trigger] fields[i]).name != name)
            ==> field_type(TypeView::Struct(fields), name) == Err::<TypeView, AnalysisError>(
            AnalysisError::StructFieldNotDeclared,
        ),
        (exists|i: int|
            0 <= i < fields.len() && (#[trigger] fields[i]).name == name && fields[i].kind
                is Field) <==> field_type(TypeView::Struct(fields), name) is Ok,
{
    if forall|i: int| 0 <= i < fields.len() ==> (#[trigger] fields[i]).name != name {
        lemma_no_field(fields, name, 0);
    }
    if exists|i: int|
        0 <= i < fields.len() && (#[trigger] fields[i]).name == name && fields[i].kind is Field {
        let at = choose|i: int|
            0 <= i < fields.len() && (#[trigger] fields[i]).name == name && fields[i].kind
                is Field;
        lemma_some_field(fields, name, 0, at);
    } else {
        lemma_no_field(fields, name, 0);
    }
}

/// The reduction that selects a field fails with
/// `StructFieldNotDeclared` where the struct type of the left-value
/// declares no field of that name.
pub proof fn lemma_absent_field_is_reported(
    s: Semantics,
    fields: Seq<ObjectView>,
    field: ObjectView,
    lexeme: Seq<char>,
)
    requires
        s.attributes.len() >= 2,
        s.attributes[s.attributes.len() - 2] == AttribView::LV(TypeView::Struct(fields)),
        s.attributes[s.attributes.len() - 1] == AttribView::ID(field),
        forall|i: int| 0 <= i < fields.len() ==> (#[trigger] fields[i]).name != field.name,
    ensures
        reduce(Rules::LV_STRUCT, lexeme, s) == Err::<Semantics, AnalysisError>(
            AnalysisError::StructFieldNotDeclared,
        ),
{
    lemma_field_access_by_name(fields, field.name);
    let n = s.attributes.len();
    assert(s.attributes[n - 2 + 0].symbol() == Rules::LV_STRUCT.pattern()[0]);
    assert(s.attributes[n - 2 + 1].symbol() == Rules::LV_STRUCT.pattern()[1]);
    assert(aligned(s.attributes, Rules::LV_STRUCT));
    assert(arguments(s.attributes, Rules::LV_STRUCT)[0] == s.attributes[n - 2]);
    assert(arguments(s.attributes, Rules::LV_STRUCT)[1] == s.attributes[n - 1]);
}

/// The first binding of a name is where it was, whatever the kinds of the
/// bindings have become.
pub proof fn lemma_first_from_goes_by_names(
    before: Block,
    after: Block,
    name: Seq<char>,
    start: int,
)
    requires
        0 <= start <= before.len(),
        after.len() == before.len(),
        forall|i: int| 0 <= i < before.len() ==> (#[trigger] after[i]).name == before[i].name,
    ensures
        first_from(after, name, start) == first_from(before, name, start),
    decreases before.len() - start,
{
    if start < before.len() {
        assert(after[start].name == before[start].name);
        if before[start].name != name {
            lemma_first_from_goes_by_names(before, after, name, start + 1);
        }
    }
}

/// Struct types are compared by structure, not by name: each of two
/// declarations of struct types with the same fields, whatever the names
/// of the two types and wherever they are declared, binds its name to the
/// same type.
pub proof fn lemma_struct_types_are_structural(
    first: Seq<Block>,
    a: Seq<char>,
    second: Seq<Block>,
    b: Seq<char>,
)
    requires
        first.len() >= 2,
        second.len() >= 2,
        first.last() == second.last(),
        search(end_block(first), a) is Some,
        search(end_block(second), b) is Some,
    ensures
        search(struct_type_decl(first, a), a) == Some(
            ObjectView { name: a, kind: KindView::Struct(TypeView::Struct(first.last())) },
        ),
        search(struct_type_decl(second, b), b) == Some(
            ObjectView { name: b, kind: KindView::Struct(TypeView::Struct(first.last())) },
        ),
{
    let kind = KindView::Struct(TypeView::Struct(first.last()));
    let outer_a = end_block(first).last();
    lemma_first_from(outer_a, a, 0);
    lemma_first_from_goes_by_names(outer_a, rebind_first(outer_a, a, kind), a, 0);
    let outer_b = end_block(second).last();
    lemma_first_from(outer_b, b, 0);
    lemma_first_from_goes_by_names(outer_b, rebind_first(outer_b, b, kind), b, 0);
}

} // verus!
