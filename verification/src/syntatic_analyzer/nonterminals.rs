use vstd::prelude::*;
use vstd::std_specs::cmp::PartialEqSpec;

verus! {

/// The nonterminals of the grammar.
#[derive(Debug, Clone, Copy, PartialEq, Eq, Structural)]
pub enum Token {
    B,
    C,
    DC,
    DE,
    DF,
    DT,
    DV,
    E,
    F,
    FALSE,
    ID,
    IDD,
    IDU,
    L,
    LDE,
    LDV,
    LE,
    LI,
    LP,
    LS,
    LV,
    MC,
    ME,
    MF,
    MT,
    MW,
    NB,
    NF,
    NUM,
    P,
    R,
    S,
    STR,
    T,
    TRUE,
    Y,
}

/// Number of nonterminals; their ids are `0 .. NONTERMINAL_COUNT`.
pub const NONTERMINAL_COUNT: usize = 36;

impl Token {
    /// The column of the action table that holds the goto entries of this nonterminal.
    pub open spec fn id(self) -> nat {
        match self {
            Token::B => 0,
            Token::C => 1,
            Token::DC => 2,
            Token::DE => 3,
            Token::DF => 4,
            Token::DT => 5,
            Token::DV => 6,
            Token::E => 7,
            Token::F => 8,
            Token::FALSE => 9,
            Token::ID => 10,
            Token::IDD => 11,
            Token::IDU => 12,
            Token::L => 13,
            Token::LDE => 14,
            Token::LDV => 15,
            Token::LE => 16,
            Token::LI => 17,
            Token::LP => 18,
            Token::LS => 19,
            Token::LV => 20,
            Token::MC => 21,
            Token::ME => 22,
            Token::MF => 23,
            Token::MT => 24,
            Token::MW => 25,
            Token::NB => 26,
            Token::NF => 27,
            Token::NUM => 28,
            Token::P => 29,
            Token::R => 30,
            Token::S => 31,
            Token::STR => 32,
            Token::T => 33,
            Token::TRUE => 34,
            Token::Y => 35,
        }
    }

    pub fn into_usize(&self) -> (r: usize)
        ensures
            r == self.id(),
            r < NONTERMINAL_COUNT,
    {
        match self {
            Token::B => 0,
            Token::C => 1,
            Token::DC => 2,
            Token::DE => 3,
            Token::DF => 4,
            Token::DT => 5,
            Token::DV => 6,
            Token::E => 7,
            Token::F => 8,
            Token::FALSE => 9,
            Token::ID => 10,
            Token::IDD => 11,
            Token::IDU => 12,
            Token::L => 13,
            Token::LDE => 14,
            Token::LDV => 15,
            Token::LE => 16,
            Token::LI => 17,
            Token::LP => 18,
            Token::LS => 19,
            Token::LV => 20,
            Token::MC => 21,
            Token::ME => 22,
            Token::MF => 23,
            Token::MT => 24,
            Token::MW => 25,
            Token::NB => 26,
            Token::NF => 27,
            Token::NUM => 28,
            Token::P => 29,
            Token::R => 30,
            Token::S => 31,
            Token::STR => 32,
            Token::T => 33,
            Token::TRUE => 34,
            Token::Y => 35,
        }
    }
}

/// Distinct nonterminals have distinct ids.
pub proof fn lemma_nonterminal_ids_injective(a: Token, b: Token)
    requires
        a.id() == b.id(),
    ensures
        a == b,
{
}

/// Mathematical model of a [`Type`].
pub enum TypeView {
    Int,
    Char,
    Bool,
    String,
    /// Number of elements and element type.
    Array(nat, Box<TypeView>),
    Alias(Box<TypeView>),
    /// The fields, in declaration order.
    Struct(Seq<ObjectView>),
}

/// Mathematical model of an [`Object`]: a name bound to a kind.
pub struct ObjectView {
    pub name: Seq<char>,
    pub kind: KindView,
}

/// Mathematical model of a [`Kind`].
pub enum KindView {
    Unbound,
    Var(TypeView),
    Param(TypeView),
    /// Return type and parameter types, in declaration order.
    Function(TypeView, Seq<TypeView>),
    Field(TypeView),
    Scalar(TypeView),
    Array(TypeView),
    Struct(TypeView),
    Alias(TypeView),
    Universal,
}

/// A type of the analysed language. Types are compared by structure.
#[allow(non_camel_case_types)]
#[derive(Debug)]
pub enum Type {
    Int_,
    Char_,
    Bool_,
    String_,
    Array_type_(u32, Box<Type>),
    Alias_type_(Box<Type>),
    Struct_type_(Box<Vec<Object>>),
}

/// A binding: an identifier and the role it plays.
#[derive(Debug)]
pub struct Object(pub String, pub Kind);

/// The role of a declared identifier. A binding starts as `no_kind_def` and
/// receives its final kind from the rule that completes its declaration.
#[allow(non_camel_case_types)]
#[derive(Debug)]
pub enum Kind {
    no_kind_def,
    var(Type),
    param(Type),
    function(Type, Vec<Type>),
    field(Type),
    scalar(Type),
    array(Type),
    struct_(Type),
    alias(Type),
    universal,
}

/// A field of a struct type: its name and its type.
#[derive(Debug)]
pub struct StructField(pub String, pub Type);

/// The model of a type: its own shape, with the models of its parts.
pub open spec fn type_view(t: Type) -> TypeView
    decreases t,
{
    match t {
        Type::Int_ => TypeView::Int,
        Type::Char_ => TypeView::Char,
        Type::Bool_ => TypeView::Bool,
        Type::String_ => TypeView::String,
        Type::Array_type_(n, elem) => TypeView::Array(n as nat, Box::new(type_view(*elem))),
        Type::Alias_type_(inner) => TypeView::Alias(Box::new(type_view(*inner))),
        Type::Struct_type_(fields) => TypeView::Struct(
            Seq::new(
                fields@.len(),
                |i: int|
                    if 0 <= i < fields@.len() {
                        object_view(fields@[i])
                    } else {
                        arbitrary()
                    },
            ),
        ),
    }
}

/// The model of a binding.
pub open spec fn object_view(o: Object) -> ObjectView
    decreases o,
{
    ObjectView { name: o.0@, kind: kind_view(o.1) }
}

/// The model of a kind.
pub open spec fn kind_view(k: Kind) -> KindView
    decreases k,
{
    match k {
        Kind::no_kind_def => KindView::Unbound,
        Kind::var(t) => KindView::Var(type_view(t)),
        Kind::param(t) => KindView::Param(type_view(t)),
        Kind::function(ret, params) => KindView::Function(
            type_view(ret),
            Seq::new(
                params@.len(),
                |i: int|
                    if 0 <= i < params@.len() {
                        type_view(params@[i])
                    } else {
                        arbitrary()
                    },
            ),
        ),
        Kind::field(t) => KindView::Field(type_view(t)),
        Kind::scalar(t) => KindView::Scalar(type_view(t)),
        Kind::array(t) => KindView::Array(type_view(t)),
        Kind::struct_(t) => KindView::Struct(type_view(t)),
        Kind::alias(t) => KindView::Alias(type_view(t)),
        Kind::universal => KindView::Universal,
    }
}

impl View for Type {
    type V = TypeView;

    open spec fn view(&self) -> TypeView {
        type_view(*self)
    }
}

impl View for Object {
    type V = ObjectView;

    open spec fn view(&self) -> ObjectView {
        object_view(*self)
    }
}

impl View for Kind {
    type V = KindView;

    open spec fn view(&self) -> KindView {
        kind_view(*self)
    }
}

/// The models of a list of types, in their order.
pub open spec fn types_view(ts: Seq<Type>) -> Seq<TypeView> {
    Seq::new(ts.len(), |i: int| ts[i]@)
}

/// The models of a list of bindings, in their order.
pub open spec fn objects_view(os: Seq<Object>) -> Seq<ObjectView> {
    Seq::new(os.len(), |i: int| os[i]@)
}

/// The model of a struct type holds the models of its fields.
pub proof fn lemma_struct_view(fields: Box<Vec<Object>>)
    ensures
        Type::Struct_type_(fields)@ == TypeView::Struct(objects_view(fields@)),
{
    assert(Type::Struct_type_(fields)@->Struct_0 =~= objects_view(fields@));
}

/// The model of a function kind holds the models of the return type and
/// of the parameter types.
pub proof fn lemma_function_view(ret: Type, params: Vec<Type>)
    ensures
        Kind::function(ret, params)@ == KindView::Function(ret@, types_view(params@)),
{
    assert(Kind::function(ret, params)@->Function_1 =~= types_view(params@));
}

/// Whether two types have the same structure.
fn types_equal(a: &Type, b: &Type) -> (r: bool)
    ensures
        r == (a@ == b@),
    decreases a,
{
    match (a, b) {
        (Type::Int_, Type::Int_) => true,
        (Type::Char_, Type::Char_) => true,
        (Type::Bool_, Type::Bool_) => true,
        (Type::String_, Type::String_) => true,
        (Type::Array_type_(n, x), Type::Array_type_(m, y)) => *n == *m && types_equal(x, y),
        (Type::Alias_type_(x), Type::Alias_type_(y)) => types_equal(x, y),
        (Type::Struct_type_(x), Type::Struct_type_(y)) => {
            proof {
                lemma_struct_view(*x);
                lemma_struct_view(*y);
            }
            assert(objects_view(x@).len() == x@.len());
            assert(objects_view(y@).len() == y@.len());
            if x.len() != y.len() {
                return false;
            }
            let mut i: usize = 0;
            while i < x.len()
                invariant
                    i <= x.len(),
                    x.len() == y.len(),
                    a == Type::Struct_type_(*x),
                    a@ == TypeView::Struct(objects_view(x@)),
                    b@ == TypeView::Struct(objects_view(y@)),
                    forall|j: int| 0 <= j < i ==> x@[j]@ == y@[j]@,
                decreases x.len() - i,
            {
                proof {
                    vstd::std_specs::vec::axiom_vec_index_decreases(**x, i as int);
                    assert(objects_view(x@)[i as int] == x@[i as int]@);
                    assert(objects_view(y@)[i as int] == y@[i as int]@);
                }
                if !objects_equal(&x[i], &y[i]) {
                    return false;
                }
                i += 1;
            }
            assert(objects_view(x@) =~= objects_view(y@));
            true
        },
        _ => false,
    }
}

/// Whether two bindings have the same name and the same kind.
fn objects_equal(a: &Object, b: &Object) -> (r: bool)
    ensures
        r == (a@ == b@),
    decreases a,
{
    a.0 == b.0 && kinds_equal(&a.1, &b.1)
}

/// Whether two kinds are the same and speak of the same types.
fn kinds_equal(a: &Kind, b: &Kind) -> (r: bool)
    ensures
        r == (a@ == b@),
    decreases a,
{
    match (a, b) {
        (Kind::no_kind_def, Kind::no_kind_def) => true,
        (Kind::var(x), Kind::var(y)) => types_equal(x, y),
        (Kind::param(x), Kind::param(y)) => types_equal(x, y),
        (Kind::function(left_ret, left_params), Kind::function(right_ret, right_params)) => {
            proof {
                lemma_function_view(*left_ret, *left_params);
                lemma_function_view(*right_ret, *right_params);
            }
            if !types_equal(left_ret, right_ret) {
                return false;
            }
            assert(types_view(left_params@).len() == left_params@.len());
            assert(types_view(right_params@).len() == right_params@.len());
            if left_params.len() != right_params.len() {
                return false;
            }
            let mut i: usize = 0;
            while i < left_params.len()
                invariant
                    i <= left_params.len(),
                    left_params.len() == right_params.len(),
                    a == Kind::function(*left_ret, *left_params),
                    a@ == KindView::Function(left_ret@, types_view(left_params@)),
                    b@ == KindView::Function(right_ret@, types_view(right_params@)),
                    left_ret@ == right_ret@,
                    forall|j: int| 0 <= j < i ==> left_params@[j]@ == right_params@[j]@,
                decreases left_params.len() - i,
            {
                proof {
                    vstd::std_specs::vec::axiom_vec_index_decreases(*left_params, i as int);
                    assert(types_view(left_params@)[i as int] == left_params@[i as int]@);
                    assert(types_view(right_params@)[i as int] == right_params@[i as int]@);
                }
                if !types_equal(&left_params[i], &right_params[i]) {
                    return false;
                }
                i += 1;
            }
            assert(types_view(left_params@) =~= types_view(right_params@));
            true
        },
        (Kind::field(x), Kind::field(y)) => types_equal(x, y),
        (Kind::scalar(x), Kind::scalar(y)) => types_equal(x, y),
        (Kind::array(x), Kind::array(y)) => types_equal(x, y),
        (Kind::struct_(x), Kind::struct_(y)) => types_equal(x, y),
        (Kind::alias(x), Kind::alias(y)) => types_equal(x, y),
        (Kind::universal, Kind::universal) => true,
        _ => false,
    }
}


impl PartialEq for Type {
    fn eq(&self, other: &Type) -> (r: bool) {
        types_equal(self, other)
    }
}

impl vstd::std_specs::cmp::PartialEqSpecImpl for Type {
    open spec fn obeys_eq_spec() -> bool {
        true
    }

    open spec fn eq_spec(&self, other: &Type) -> bool {
        self@ == other@
    }
}

impl Eq for Type {}

/// Equality of types goes by structure alone: two types are equal exactly
/// when their models are, so every type equals itself, and the equality is
/// symmetric and transitive.
pub proof fn lemma_type_equality_is_structural(a: Type, b: Type, c: Type)
    ensures
        a.eq_spec(&b) <==> a@ == b@,
        a.eq_spec(&a),
        a.eq_spec(&b) == b.eq_spec(&a),
        a.eq_spec(&b) && b.eq_spec(&c) ==> a.eq_spec(&c),
{
}

/// A copy of a type.
fn clone_type(t: &Type) -> (r: Type)
    ensures
        r@ == t@,
    decreases t,
{
    match t {
        Type::Int_ => Type::Int_,
        Type::Char_ => Type::Char_,
        Type::Bool_ => Type::Bool_,
        Type::String_ => Type::String_,
        Type::Array_type_(n, elem) => Type::Array_type_(*n, Box::new(clone_type(elem))),
        Type::Alias_type_(inner) => Type::Alias_type_(Box::new(clone_type(inner))),
        Type::Struct_type_(fields) => {
            let mut copy: Vec<Object> = Vec::new();
            let mut i: usize = 0;
            while i < fields.len()
                invariant
                    i <= fields.len(),
                    copy.len() == i,
                    decreases_to!(t => **fields),
                    forall|j: int| 0 <= j < i ==> copy@[j]@ == fields@[j]@,
                decreases fields.len() - i,
            {
                proof {
                    vstd::std_specs::vec::axiom_vec_index_decreases(**fields, i as int);
                }
                let item = clone_object(&fields[i]);
                copy.push(item);
                i += 1;
            }
            let r = Type::Struct_type_(Box::new(copy));
            proof {
                lemma_struct_view(*fields);
                lemma_struct_view(Box::new(copy));
                assert(objects_view(copy@) =~= objects_view(fields@));
            }
            r
        },
    }
}

/// A copy of a binding.
fn clone_object(o: &Object) -> (r: Object)
    ensures
        r@ == o@,
    decreases o,
{
    Object(o.0.clone(), clone_kind(&o.1))
}

/// A copy of a kind.
fn clone_kind(k: &Kind) -> (r: Kind)
    ensures
        r@ == k@,
    decreases k,
{
    match k {
        Kind::no_kind_def => Kind::no_kind_def,
        Kind::var(t) => Kind::var(clone_type(t)),
        Kind::param(t) => Kind::param(clone_type(t)),
        Kind::function(ret, params) => {
            let mut copy: Vec<Type> = Vec::new();
            let mut i: usize = 0;
            while i < params.len()
                invariant
                    i <= params.len(),
                    copy.len() == i,
                    decreases_to!(k => *params),
                    forall|j: int| 0 <= j < i ==> copy@[j]@ == params@[j]@,
                decreases params.len() - i,
            {
                proof {
                    vstd::std_specs::vec::axiom_vec_index_decreases(*params, i as int);
                }
                let item = clone_type(&params[i]);
                copy.push(item);
                i += 1;
            }
            let ret_copy = clone_type(ret);
            let r = Kind::function(ret_copy, copy);
            proof {
                lemma_function_view(*ret, *params);
                lemma_function_view(ret_copy, copy);
                assert(types_view(copy@) =~= types_view(params@));
            }
            r
        },
        Kind::field(t) => Kind::field(clone_type(t)),
        Kind::scalar(t) => Kind::scalar(clone_type(t)),
        Kind::array(t) => Kind::array(clone_type(t)),
        Kind::struct_(t) => Kind::struct_(clone_type(t)),
        Kind::alias(t) => Kind::alias(clone_type(t)),
        Kind::universal => Kind::universal,
    }
}

impl Clone for Type {
    fn clone(&self) -> (r: Type)
        ensures
            r@ == self@,
    {
        clone_type(self)
    }
}

impl Clone for Object {
    fn clone(&self) -> (r: Object)
        ensures
            r@ == self@,
    {
        clone_object(self)
    }
}

impl Clone for Kind {
    fn clone(&self) -> (r: Kind)
        ensures
            r@ == self@,
    {
        clone_kind(self)
    }
}


impl PartialEq for Object {
    fn eq(&self, other: &Object) -> (r: bool) {
        objects_equal(self, other)
    }
}

impl vstd::std_specs::cmp::PartialEqSpecImpl for Object {
    open spec fn obeys_eq_spec() -> bool {
        true
    }

    open spec fn eq_spec(&self, other: &Object) -> bool {
        self@ == other@
    }
}

impl Eq for Object {}

impl PartialEq for Kind {
    fn eq(&self, other: &Kind) -> (r: bool) {
        kinds_equal(self, other)
    }
}

impl vstd::std_specs::cmp::PartialEqSpecImpl for Kind {
    open spec fn obeys_eq_spec() -> bool {
        true
    }

    open spec fn eq_spec(&self, other: &Kind) -> bool {
        self@ == other@
    }
}

impl Eq for Kind {}

/// A copy of a list of types.
pub(crate) fn clone_types(ts: &Vec<Type>) -> (r: Vec<Type>)
    ensures
        types_view(r@) == types_view(ts@),
{
    let mut copy: Vec<Type> = Vec::new();
    let mut i: usize = 0;
    while i < ts.len()
        invariant
            i <= ts.len(),
            copy.len() == i,
            forall|j: int| 0 <= j < i ==> copy@[j]@ == ts@[j]@,
        decreases ts.len() - i,
    {
        let item = clone_type(&ts[i]);
        copy.push(item);
        i += 1;
    }
    assert(types_view(copy@) =~= types_view(ts@));
    copy
}

/// Mathematical model of an [`AttribToken`].
pub enum AttribView {
    B,
    CHR(ObjectView, char),
    DC,
    DE,
    DF,
    DT,
    DV,
    E(TypeView),
    F(TypeView),
    FALSE(ObjectView, bool),
    ID(ObjectView),
    IDD(ObjectView),
    IDU(ObjectView),
    L(TypeView),
    LDE,
    LDV,
    LE(Seq<TypeView>, nat),
    LI(Seq<ObjectView>),
    LP(Seq<ObjectView>),
    LS,
    LV(TypeView),
    MC(TypeView, Seq<TypeView>),
    ME,
    MF,
    MT,
    MW,
    NB,
    NF,
    NUM(ObjectView, int),
    P,
    R(TypeView),
    S,
    STR(ObjectView, Seq<char>),
    T(TypeView),
    TRUE(ObjectView, bool),
    Y(TypeView),
}

impl AttribView {
    /// The nonterminal that this attribute belongs to.
    pub open spec fn symbol(self) -> Token {
        match self {
            AttribView::B => Token::B,
            AttribView::CHR(_, _) => Token::C,
            AttribView::DC => Token::DC,
            AttribView::DE => Token::DE,
            AttribView::DF => Token::DF,
            AttribView::DT => Token::DT,
            AttribView::DV => Token::DV,
            AttribView::E(_) => Token::E,
            AttribView::F(_) => Token::F,
            AttribView::FALSE(_, _) => Token::FALSE,
            AttribView::ID(_) => Token::ID,
            AttribView::IDD(_) => Token::IDD,
            AttribView::IDU(_) => Token::IDU,
            AttribView::L(_) => Token::L,
            AttribView::LDE => Token::LDE,
            AttribView::LDV => Token::LDV,
            AttribView::LE(_, _) => Token::LE,
            AttribView::LI(_) => Token::LI,
            AttribView::LP(_) => Token::LP,
            AttribView::LS => Token::LS,
            AttribView::LV(_) => Token::LV,
            AttribView::MC(_, _) => Token::MC,
            AttribView::ME => Token::ME,
            AttribView::MF => Token::MF,
            AttribView::MT => Token::MT,
            AttribView::MW => Token::MW,
            AttribView::NB => Token::NB,
            AttribView::NF => Token::NF,
            AttribView::NUM(_, _) => Token::NUM,
            AttribView::P => Token::P,
            AttribView::R(_) => Token::R,
            AttribView::S => Token::S,
            AttribView::STR(_, _) => Token::STR,
            AttribView::T(_) => Token::T,
            AttribView::TRUE(_, _) => Token::TRUE,
            AttribView::Y(_) => Token::Y,
        }
    }

    /// Whether this is the attribute of a type name, an expression or a left-value.
    pub open spec fn carries_type(self) -> bool {
        self is E || self is F || self is L || self is LV || self is R || self is T || self is Y
    }

    /// The type that the attribute of a type name, an expression or a left-value carries.
    pub open spec fn ty(self) -> TypeView {
        match self {
            AttribView::E(t) => t,
            AttribView::F(t) => t,
            AttribView::L(t) => t,
            AttribView::LV(t) => t,
            AttribView::R(t) => t,
            AttribView::T(t) => t,
            AttribView::Y(t) => t,
            _ => arbitrary(),
        }
    }

    /// Whether this is the attribute of an identifier.
    pub open spec fn carries_object(self) -> bool {
        self is ID || self is IDD || self is IDU
    }

    /// The binding that the attribute of an identifier carries.
    pub open spec fn object(self) -> ObjectView {
        match self {
            AttribView::ID(o) => o,
            AttribView::IDD(o) => o,
            AttribView::IDU(o) => o,
            _ => arbitrary(),
        }
    }

    /// Whether this is the attribute of an identifier list or of a parameter list.
    pub open spec fn carries_objects(self) -> bool {
        self is LI || self is LP
    }

    /// The bindings that the attribute of an identifier list or of a
    /// parameter list carries, in source order.
    pub open spec fn objects(self) -> Seq<ObjectView> {
        match self {
            AttribView::LI(os) => os,
            AttribView::LP(os) => os,
            _ => arbitrary(),
        }
    }
}

/// The synthesized attribute of a grammar symbol: one variant per nonterminal.
#[derive(Debug, PartialEq, Eq)]
pub enum AttribToken {
    B,
    CHR(Object, char),
    DC,
    DE,
    DF,
    DT,
    DV,
    E(Type),
    F(Type),
    FALSE(Object, bool),
    /// An identifier that is looked up in no scope, such as a field name.
    ID(Object),
    IDD(Object),
    IDU(Object),
    L(Type),
    LDE,
    LDV,
    /// The parameter types of the callee and the number of arguments checked so far.
    LE(Vec<Type>, usize),
    LI(Vec<Object>),
    LP(Vec<Object>),
    LS,
    LV(Type),
    /// The return type and the parameter types of the callee.
    MC(Type, Vec<Type>),
    ME,
    MF,
    MT,
    MW,
    NB,
    NF,
    NUM(Object, i32),
    P,
    R(Type),
    S,
    STR(Object, String),
    T(Type),
    TRUE(Object, bool),
    Y(Type),
}

impl View for AttribToken {
    type V = AttribView;

    open spec fn view(&self) -> AttribView {
        match *self {
            AttribToken::B => AttribView::B,
            AttribToken::CHR(o, c) => AttribView::CHR(o@, c),
            AttribToken::DC => AttribView::DC,
            AttribToken::DE => AttribView::DE,
            AttribToken::DF => AttribView::DF,
            AttribToken::DT => AttribView::DT,
            AttribToken::DV => AttribView::DV,
            AttribToken::E(t) => AttribView::E(t@),
            AttribToken::F(t) => AttribView::F(t@),
            AttribToken::FALSE(o, b) => AttribView::FALSE(o@, b),
            AttribToken::ID(o) => AttribView::ID(o@),
            AttribToken::IDD(o) => AttribView::IDD(o@),
            AttribToken::IDU(o) => AttribView::IDU(o@),
            AttribToken::L(t) => AttribView::L(t@),
            AttribToken::LDE => AttribView::LDE,
            AttribToken::LDV => AttribView::LDV,
            AttribToken::LE(ts, n) => AttribView::LE(types_view(ts@), n as nat),
            AttribToken::LI(os) => AttribView::LI(objects_view(os@)),
            AttribToken::LP(os) => AttribView::LP(objects_view(os@)),
            AttribToken::LS => AttribView::LS,
            AttribToken::LV(t) => AttribView::LV(t@),
            AttribToken::MC(t, ts) => AttribView::MC(t@, types_view(ts@)),
            AttribToken::ME => AttribView::ME,
            AttribToken::MF => AttribView::MF,
            AttribToken::MT => AttribView::MT,
            AttribToken::MW => AttribView::MW,
            AttribToken::NB => AttribView::NB,
            AttribToken::NF => AttribView::NF,
            AttribToken::NUM(o, n) => AttribView::NUM(o@, n as int),
            AttribToken::P => AttribView::P,
            AttribToken::R(t) => AttribView::R(t@),
            AttribToken::S => AttribView::S,
            AttribToken::STR(o, s) => AttribView::STR(o@, s@),
            AttribToken::T(t) => AttribView::T(t@),
            AttribToken::TRUE(o, b) => AttribView::TRUE(o@, b),
            AttribToken::Y(t) => AttribView::Y(t@),
        }
    }
}

impl AttribToken {
    /// The nonterminal that this attribute belongs to.
    pub fn symbol(&self) -> (r: Token)
        ensures
            r == self@.symbol(),
    {
        match self {
            AttribToken::B => Token::B,
            AttribToken::CHR(_, _) => Token::C,
            AttribToken::DC => Token::DC,
            AttribToken::DE => Token::DE,
            AttribToken::DF => Token::DF,
            AttribToken::DT => Token::DT,
            AttribToken::DV => Token::DV,
            AttribToken::E(_) => Token::E,
            AttribToken::F(_) => Token::F,
            AttribToken::FALSE(_, _) => Token::FALSE,
            AttribToken::ID(_) => Token::ID,
            AttribToken::IDD(_) => Token::IDD,
            AttribToken::IDU(_) => Token::IDU,
            AttribToken::L(_) => Token::L,
            AttribToken::LDE => Token::LDE,
            AttribToken::LDV => Token::LDV,
            AttribToken::LE(_, _) => Token::LE,
            AttribToken::LI(_) => Token::LI,
            AttribToken::LP(_) => Token::LP,
            AttribToken::LS => Token::LS,
            AttribToken::LV(_) => Token::LV,
            AttribToken::MC(_, _) => Token::MC,
            AttribToken::ME => Token::ME,
            AttribToken::MF => Token::MF,
            AttribToken::MT => Token::MT,
            AttribToken::MW => Token::MW,
            AttribToken::NB => Token::NB,
            AttribToken::NF => Token::NF,
            AttribToken::NUM(_, _) => Token::NUM,
            AttribToken::P => Token::P,
            AttribToken::R(_) => Token::R,
            AttribToken::S => Token::S,
            AttribToken::STR(_, _) => Token::STR,
            AttribToken::T(_) => Token::T,
            AttribToken::TRUE(_, _) => Token::TRUE,
            AttribToken::Y(_) => Token::Y,
        }
    }

    /// The type that the attribute of a type name, an expression or a
    /// left-value carries.
    pub fn into_type(self) -> (r: Option<Type>)
        ensures
            match r {
                Some(t) => self@.carries_type() && t@ == self@.ty(),
                None => !self@.carries_type(),
            },
    {
        match self {
            AttribToken::E(t) => Some(t),
            AttribToken::F(t) => Some(t),
            AttribToken::L(t) => Some(t),
            AttribToken::LV(t) => Some(t),
            AttribToken::R(t) => Some(t),
            AttribToken::T(t) => Some(t),
            AttribToken::Y(t) => Some(t),
            _ => None,
        }
    }

    /// The binding that the attribute of an identifier carries.
    pub fn into_object(self) -> (r: Option<Object>)
        ensures
            match r {
                Some(o) => self@.carries_object() && o@ == self@.object(),
                None => !self@.carries_object(),
            },
    {
        match self {
            AttribToken::ID(o) => Some(o),
            AttribToken::IDD(o) => Some(o),
            AttribToken::IDU(o) => Some(o),
            _ => None,
        }
    }

    /// The bindings that the attribute of an identifier list or of a
    /// parameter list carries.
    pub fn into_objects(self) -> (r: Option<Vec<Object>>)
        ensures
            match r {
                Some(os) => self@.carries_objects() && objects_view(os@) == self@.objects(),
                None => !self@.carries_objects(),
            },
    {
        match self {
            AttribToken::LI(os) => Some(os),
            AttribToken::LP(os) => Some(os),
            _ => None,
        }
    }
}

/// The models of a stack of attributes, bottom first.
pub open spec fn attribs_view(attrs: Seq<AttribToken>) -> Seq<AttribView> {
    Seq::new(attrs.len(), |i: int| attrs[i]@)
}

} // verus!
