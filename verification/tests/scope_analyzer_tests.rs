use compiler_frontend::syntatic_analyzer::errors::AnalysisError;
use compiler_frontend::syntatic_analyzer::nonterminals::{Kind, Object, Type};
use compiler_frontend::syntatic_analyzer::scope_analyzer::ScopeAnalyzer;

fn object(name: &str, kind: Kind) -> Object {
    Object(String::from(name), kind)
}

#[test]
fn new_analyzer_has_one_empty_block() {
    let scopes = ScopeAnalyzer::new();
    assert_eq!(scopes.depth(), 1);
    assert_eq!(scopes.find("a"), None);
    assert_eq!(scopes.search("a"), None);
}

#[test]
fn define_binds_without_kind() {
    let mut scopes = ScopeAnalyzer::new();
    scopes.define(String::from("a"));
    assert_eq!(scopes.search("a"), Some(object("a", Kind::no_kind_def)));
    assert_eq!(scopes.find("a"), Some(object("a", Kind::no_kind_def)));
    assert_eq!(scopes.search("b"), None);
    assert_eq!(scopes.search(""), None);
}

#[test]
fn search_sees_the_innermost_block_only() {
    let mut scopes = ScopeAnalyzer::new();
    scopes.define(String::from("a"));
    scopes.new_block();
    assert_eq!(scopes.depth(), 2);
    assert_eq!(scopes.search("a"), None);
    assert_eq!(scopes.find("a"), Some(object("a", Kind::no_kind_def)));
}

#[test]
fn inner_binding_shadows_outer() {
    let mut scopes = ScopeAnalyzer::new();
    scopes.define(String::from("a"));
    scopes.var_decl("a", Type::Int_);
    scopes.new_block();
    scopes.define(String::from("a"));
    assert_eq!(scopes.find("a"), Some(object("a", Kind::no_kind_def)));
    scopes.var_decl("a", Type::String_);
    assert_eq!(scopes.find("a"), Some(object("a", Kind::var(Type::String_))));
    scopes.end_block();
    assert_eq!(scopes.find("a"), Some(object("a", Kind::var(Type::Int_))));
    assert_eq!(scopes.depth(), 1);
}

#[test]
fn end_block_forgets_bindings() {
    let mut scopes = ScopeAnalyzer::new();
    scopes.new_block();
    scopes.define(String::from("b"));
    scopes.end_block();
    assert_eq!(scopes.find("b"), None);
    scopes.end_block();
    assert_eq!(scopes.depth(), 0);
    scopes.end_block();
    assert_eq!(scopes.depth(), 0);
    scopes.define(String::from("c"));
    assert_eq!(scopes.find("c"), None);
    scopes.var_decl("c", Type::Int_);
    scopes.struct_type_decl("c");
    scopes.func_type_decl("c", Type::Int_, vec![]);
    assert_eq!(scopes.depth(), 0);
}

#[test]
fn declarations_give_kinds() {
    let mut scopes = ScopeAnalyzer::new();
    for name in ["v", "l", "f", "p", "r", "other"] {
        scopes.define(String::from(name));
    }
    scopes.var_decl("v", Type::Int_);
    scopes.alias_type_decl("l", Type::Char_);
    scopes.struct_field_decl("f", Type::Bool_);
    scopes.param_type_decl("p", Type::String_);
    assert_eq!(scopes.array_type_decl("r", 3, Type::Int_), Ok(()));
    assert_eq!(scopes.find("v"), Some(object("v", Kind::var(Type::Int_))));
    assert_eq!(scopes.find("l"), Some(object("l", Kind::alias(Type::Char_))));
    assert_eq!(scopes.find("f"), Some(object("f", Kind::field(Type::Bool_))));
    assert_eq!(scopes.find("p"), Some(object("p", Kind::param(Type::String_))));
    assert_eq!(
        scopes.find("r"),
        Some(object("r", Kind::array(Type::Array_type_(3, Box::new(Type::Int_)))))
    );
    assert_eq!(scopes.find("other"), Some(object("other", Kind::no_kind_def)));
    scopes.var_decl("absent", Type::Int_);
    assert_eq!(scopes.find("absent"), None);
}

#[test]
fn array_size_must_not_be_negative() {
    let mut scopes = ScopeAnalyzer::new();
    scopes.define(String::from("r"));
    assert_eq!(scopes.array_type_decl("r", -1, Type::Int_), Err(AnalysisError::InvalidArraySize));
    assert_eq!(scopes.find("r"), Some(object("r", Kind::no_kind_def)));
    assert_eq!(scopes.array_type_decl("r", 0, Type::Int_), Ok(()));
    assert_eq!(
        scopes.find("r"),
        Some(object("r", Kind::array(Type::Array_type_(0, Box::new(Type::Int_)))))
    );
    assert_eq!(scopes.array_type_decl("r", i32::MAX, Type::Char_), Ok(()));
    assert_eq!(
        scopes.find("r"),
        Some(object("r", Kind::array(Type::Array_type_(2147483647, Box::new(Type::Char_)))))
    );
}

#[test]
fn struct_takes_the_innermost_block() {
    let mut scopes = ScopeAnalyzer::new();
    scopes.define(String::from("t"));
    scopes.new_block();
    scopes.define(String::from("a"));
    scopes.define(String::from("b"));
    scopes.struct_field_decl("a", Type::Int_);
    scopes.struct_field_decl("b", Type::String_);
    scopes.struct_type_decl("t");
    assert_eq!(scopes.depth(), 1);
    let fields = vec![
        object("a", Kind::field(Type::Int_)),
        object("b", Kind::field(Type::String_)),
    ];
    assert_eq!(
        scopes.find("t"),
        Some(object("t", Kind::struct_(Type::Struct_type_(Box::new(fields)))))
    );
    assert_eq!(scopes.find("a"), None);
}

#[test]
fn function_is_bound_below_its_parameters() {
    let mut scopes = ScopeAnalyzer::new();
    scopes.define(String::from("f"));
    scopes.new_block();
    scopes.define(String::from("x"));
    scopes.param_type_decl("x", Type::Int_);
    scopes.func_type_decl("f", Type::Bool_, vec![Type::Int_]);
    assert_eq!(scopes.depth(), 2);
    assert_eq!(scopes.search("f"), None);
    assert_eq!(
        scopes.find("f"),
        Some(object("f", Kind::function(Type::Bool_, vec![Type::Int_])))
    );
    assert_eq!(scopes.find("x"), Some(object("x", Kind::param(Type::Int_))));
}

#[test]
fn first_binding_of_a_name_is_found() {
    let mut scopes = ScopeAnalyzer::new();
    scopes.define(String::from("a"));
    scopes.define(String::from("a"));
    assert_eq!(scopes.array_type_decl("a", 2, Type::Int_), Ok(()));
    assert_eq!(
        scopes.search("a"),
        Some(object("a", Kind::array(Type::Array_type_(2, Box::new(Type::Int_)))))
    );
    scopes.var_decl("a", Type::Char_);
    assert_eq!(scopes.search("a"), Some(object("a", Kind::var(Type::Char_))));
    scopes.new_block();
    scopes.struct_type_decl("a");
    let fields: Vec<Object> = Vec::new();
    assert_eq!(
        scopes.search("a"),
        Some(object("a", Kind::struct_(Type::Struct_type_(Box::new(fields)))))
    );
}
