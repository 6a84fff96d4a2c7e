use crate::syntatic_analyzer::errors::AnalysisError;
use crate::syntatic_analyzer::nonterminals::{
    lemma_function_view, lemma_struct_view, objects_view, types_view, Kind, KindView, Object,
    ObjectView, Type, TypeView,
};
use crate::text::str_eq;
use vstd::prelude::*;

verus! {

/// One lexical block: its bindings in the order of their declaration.
pub type Block = Seq<ObjectView>;

/// The index of the first binding of `name` at or after `start`, or the
/// length of the block where there is none.
pub open spec fn first_from(block: Block, name: Seq<char>, start: int) -> int
    decreases block.len() - start,
{
    if start < 0 || start >= block.len() {
        block.len() as int
    } else if block[start].name == name {
        start
    } else {
        first_from(block, name, start + 1)
    }
}

/// What [`first_from`] finds is a binding of `name`, and no binding of
/// `name` lies between `start` and it.
pub proof fn lemma_first_from(block: Block, name: Seq<char>, start: int)
    requires
        0 <= start <= block.len(),
    ensures
        start <= first_from(block, name, start) <= block.len(),
        first_from(block, name, start) < block.len() ==> block[first_from(
            block,
            name,
            start,
        )].name == name,
        forall|j: int| start <= j < first_from(block, name, start) ==> block[j].name != name,
    decreases block.len() - start,
{
    if start < block.len() && block[start].name != name {
        lemma_first_from(block, name, start + 1);
    }
}

/// The first binding of `name` in one block.
pub open spec fn lookup(block: Block, name: Seq<char>) -> Option<ObjectView> {
    let i = first_from(block, name, 0);
    if i < block.len() {
        Some(block[i])
    } else {
        None
    }
}

/// The binding of `name` in the innermost of the first `depth` blocks that has one.
pub open spec fn find_below(scopes: Seq<Block>, name: Seq<char>, depth: int) -> Option<ObjectView>
    decreases depth,
{
    if depth <= 0 || depth > scopes.len() {
        None
    } else {
        match lookup(scopes[depth - 1], name) {
            Some(o) => Some(o),
            None => find_below(scopes, name, depth - 1),
        }
    }
}

/// What a use of `name` resolves to: the binding in the innermost block that declares it.
pub open spec fn find(scopes: Seq<Block>, name: Seq<char>) -> Option<ObjectView> {
    find_below(scopes, name, scopes.len() as int)
}

/// The binding of `name` in the innermost block alone.
pub open spec fn search(scopes: Seq<Block>, name: Seq<char>) -> Option<ObjectView> {
    if scopes.len() == 0 {
        None
    } else {
        lookup(scopes.last(), name)
    }
}

/// The scopes with the innermost block replaced.
pub open spec fn with_innermost(scopes: Seq<Block>, block: Block) -> Seq<Block> {
    if scopes.len() == 0 {
        scopes
    } else {
        scopes.update(scopes.len() - 1, block)
    }
}

pub open spec fn new_block(scopes: Seq<Block>) -> Seq<Block> {
    scopes.push(Seq::empty())
}

pub open spec fn end_block(scopes: Seq<Block>) -> Seq<Block> {
    if scopes.len() == 0 {
        scopes
    } else {
        scopes.drop_last()
    }
}

/// A new unbound binding at the end of the innermost block.
pub open spec fn define(scopes: Seq<Block>, name: Seq<char>) -> Seq<Block> {
    if scopes.len() == 0 {
        scopes
    } else {
        with_innermost(scopes, scopes.last().push(ObjectView { name, kind: KindView::Unbound }))
    }
}

/// The block with the kind of every binding of `name` replaced.
pub open spec fn rebind_all(block: Block, name: Seq<char>, kind: KindView) -> Block {
    Seq::new(
        block.len(),
        |i: int|
            if block[i].name == name {
                ObjectView { name, kind }
            } else {
                block[i]
            },
    )
}

/// The block with the kind of the first binding of `name` replaced.
pub open spec fn rebind_first(block: Block, name: Seq<char>, kind: KindView) -> Block {
    let i = first_from(block, name, 0);
    if i < block.len() {
        block.update(i, ObjectView { name, kind })
    } else {
        block
    }
}

/// Every binding of `name` in the innermost block receives `kind`.
pub open spec fn declare(scopes: Seq<Block>, name: Seq<char>, kind: KindView) -> Seq<Block> {
    if scopes.len() == 0 {
        scopes
    } else {
        with_innermost(scopes, rebind_all(scopes.last(), name, kind))
    }
}

/// The first binding of `name` in the innermost block becomes an array type
/// of `size` elements.
pub open spec fn array_type_decl(
    scopes: Seq<Block>,
    name: Seq<char>,
    size: nat,
    element: TypeView,
) -> Seq<Block> {
    if scopes.len() == 0 {
        scopes
    } else {
        with_innermost(
            scopes,
            rebind_first(
                scopes.last(),
                name,
                KindView::Array(TypeView::Array(size, Box::new(element))),
            ),
        )
    }
}

/// The innermost block leaves the scopes and becomes the field list of a
/// struct type, which the first binding of `name` in the block below receives.
pub open spec fn struct_type_decl(scopes: Seq<Block>, name: Seq<char>) -> Seq<Block> {
    if scopes.len() < 2 {
        scopes
    } else {
        let fields = scopes.last();
        let outer = scopes.drop_last();
        with_innermost(
            outer,
            rebind_first(outer.last(), name, KindView::Struct(TypeView::Struct(fields))),
        )
    }
}

/// Every binding of `name` in the block below the innermost one becomes a
/// function with this signature.
pub open spec fn func_type_decl(
    scopes: Seq<Block>,
    name: Seq<char>,
    return_type: TypeView,
    param_types: Seq<TypeView>,
) -> Seq<Block> {
    if scopes.len() < 2 {
        scopes
    } else {
        let below = scopes.len() - 2;
        scopes.update(
            below,
            rebind_all(scopes[below], name, KindView::Function(return_type, param_types)),
        )
    }
}

/// The models of a stack of blocks, outermost first.
pub open spec fn scopes_view(blocks: Seq<Vec<Object>>) -> Seq<Block> {
    Seq::new(blocks.len(), |i: int| objects_view(blocks[i]@))
}

/// The first binding of `target` in a block, if there is one.
fn lookup_in(block: &Vec<Object>, target: &str) -> (r: Option<usize>)
    ensures
        match r {
            Some(i) => i < block.len() && i == first_from(objects_view(block@), target@, 0),
            None => first_from(objects_view(block@), target@, 0) == block.len(),
        },
{
    let ghost model = objects_view(block@);
    let mut i: usize = 0;
    while i < block.len()
        invariant
            i <= block.len(),
            model == objects_view(block@),
            first_from(model, target@, 0) == first_from(model, target@, i as int),
        decreases block.len() - i,
    {
        assert(model[i as int] == block@[i as int]@);
        if str_eq(block[i].0.as_str(), target) {
            return Some(i);
        }
        i += 1;
    }
    None
}

/// Gives `kind` to every binding of `target` in a block.
fn rebind_all_in(block: &mut Vec<Object>, target: &str, kind: &Kind)
    ensures
        objects_view(final(block)@) == rebind_all(objects_view(old(block)@), target@, kind@),
{
    let ghost before = objects_view(block@);
    let mut i: usize = 0;
    while i < block.len()
        invariant
            i <= block.len(),
            block.len() == before.len(),
            forall|j: int|
                0 <= j < i ==> block@[j]@ == rebind_all(before, target@, kind@)[j],
            forall|j: int| i <= j < block.len() ==> block@[j]@ == before[j],
        decreases block.len() - i,
    {
        if str_eq(block[i].0.as_str(), target) {
            let name = block[i].0.clone();
            block.set(i, Object(name, kind.clone()));
        }
        i += 1;
    }
    assert(objects_view(block@) =~= rebind_all(before, target@, kind@));
}

/// Gives `kind` to the first binding of `target` in a block.
fn rebind_first_in(block: &mut Vec<Object>, target: &str, kind: Kind)
    ensures
        objects_view(final(block)@) == rebind_first(objects_view(old(block)@), target@, kind@),
{
    let ghost before = objects_view(block@);
    match lookup_in(block, target) {
        Some(i) => {
            let name = block[i].0.clone();
            proof {
                lemma_first_from(before, target@, 0);
                assert(before[i as int] == block@[i as int]@);
            }
            block.set(i, Object(name, kind));
            assert(objects_view(block@) =~= rebind_first(before, target@, kind@));
        },
        None => {},
    }
}

/// The lexical blocks that are open at one point of the analysis, outermost
/// first, each with its bindings in the order of their declaration.
pub struct ScopeAnalyzer {
    contexts: Vec<Vec<Object>>,
}

impl View for ScopeAnalyzer {
    type V = Seq<Block>;

    closed spec fn view(&self) -> Seq<Block> {
        scopes_view(self.contexts@)
    }
}

impl ScopeAnalyzer {
    /// The scopes at the start of a program: the global block, still empty.
    pub fn new() -> (r: Self)
        ensures
            r@ == seq![Seq::<ObjectView>::empty()],
    {
        let mut contexts: Vec<Vec<Object>> = Vec::new();
        contexts.push(Vec::new());
        let r = ScopeAnalyzer { contexts };
        assert(r@ =~~= seq![Seq::<ObjectView>::empty()]);
        r
    }

    /// Enters a nested block.
    pub fn new_block(&mut self)
        ensures
            final(self)@ == new_block(old(self)@),
    {
        self.contexts.push(Vec::new());
        assert(self@ =~~= new_block(old(self)@));
    }

    /// Leaves the innermost block and forgets its bindings.
    pub fn end_block(&mut self)
        ensures
            final(self)@ == end_block(old(self)@),
    {
        let _ = self.contexts.pop();
        assert(self@ =~~= end_block(old(self)@));
    }

    /// Declares `new_identifier` in the innermost block, with no kind yet.
    pub fn define(&mut self, new_identifier: String)
        ensures
            final(self)@ == define(old(self)@, new_identifier@),
    {
        match self.contexts.pop() {
            Some(mut block) => {
                block.push(Object(new_identifier, Kind::no_kind_def));
                self.contexts.push(block);
                assert(self@ =~~= define(old(self)@, new_identifier@));
            },
            None => {
                assert(self@ =~~= old(self)@);
            },
        }
    }

    /// Resolves a use of `target`: the binding in the innermost block that declares it.
    pub fn find(&self, target: &str) -> (r: Option<Object>)
        ensures
            match r {
                Some(o) => find(self@, target@) == Some(o@),
                None => find(self@, target@) is None,
            },
    {
        let mut depth: usize = self.contexts.len();
        while depth > 0
            invariant
                depth <= self.contexts.len(),
                find(self@, target@) == find_below(self@, target@, depth as int),
            decreases depth,
        {
            let block = &self.contexts[depth - 1];
            assert(self@[depth - 1] == objects_view(block@));
            match lookup_in(block, target) {
                Some(i) => {
                    let found = block[i].clone();
                    assert(objects_view(block@)[i as int] == block@[i as int]@);
                    return Some(found);
                },
                None => {},
            }
            depth -= 1;
        }
        None
    }

    /// Looks `target` up in the innermost block alone.
    pub fn search(&self, target: &str) -> (r: Option<Object>)
        ensures
            match r {
                Some(o) => search(self@, target@) == Some(o@),
                None => search(self@, target@) is None,
            },
    {
        let depth = self.contexts.len();
        if depth == 0 {
            return None;
        }
        let block = &self.contexts[depth - 1];
        assert(self@.last() == objects_view(block@));
        match lookup_in(block, target) {
            Some(i) => {
                let found = block[i].clone();
                assert(objects_view(block@)[i as int] == block@[i as int]@);
                Some(found)
            },
            None => None,
        }
    }

    /// Gives `kind` to every binding of `target` in the innermost block.
    fn declare(&mut self, target: &str, kind: Kind)
        ensures
            final(self)@ == declare(old(self)@, target@, kind@),
    {
        match self.contexts.pop() {
            Some(mut block) => {
                rebind_all_in(&mut block, target, &kind);
                self.contexts.push(block);
                assert(self@ =~~= declare(old(self)@, target@, kind@));
            },
            None => {
                assert(self@ =~~= old(self)@);
            },
        }
    }

    /// Completes the declaration of a variable.
    pub fn var_decl(&mut self, target: &str, var_type: Type)
        ensures
            final(self)@ == declare(old(self)@, target@, KindView::Var(var_type@)),
    {
        self.declare(target, Kind::var(var_type));
    }

    /// Completes the declaration of an array type. A negative size is
    /// refused and leaves the scopes as they are.
    pub fn array_type_decl(&mut self, target: &str, n_elements: i32, elements_type: Type) -> (r:
        Result<(), AnalysisError>)
        ensures
            n_elements < 0 ==> r == Err::<(), AnalysisError>(AnalysisError::InvalidArraySize)
                && final(self)@ == old(self)@,
            n_elements >= 0 ==> r is Ok && final(self)@ == array_type_decl(
                old(self)@,
                target@,
                n_elements as nat,
                elements_type@,
            ),
    {
        if n_elements < 0 {
            return Err(AnalysisError::InvalidArraySize);
        }
        let size: u32 = n_elements as u32;
        match self.contexts.pop() {
            Some(mut block) => {
                let kind = Kind::array(Type::Array_type_(size, Box::new(elements_type)));
                rebind_first_in(&mut block, target, kind);
                self.contexts.push(block);
                assert(self@ =~~= array_type_decl(
                    old(self)@,
                    target@,
                    n_elements as nat,
                    elements_type@,
                ));
            },
            None => {
                assert(self@ =~~= old(self)@);
            },
        }
        Ok(())
    }

    /// Completes the declaration of a type alias.
    pub fn alias_type_decl(&mut self, target: &str, alias_type: Type)
        ensures
            final(self)@ == declare(old(self)@, target@, KindView::Alias(alias_type@)),
    {
        self.declare(target, Kind::alias(alias_type));
    }

    /// Completes the declaration of a struct field.
    pub fn struct_field_decl(&mut self, target: &str, field_type: Type)
        ensures
            final(self)@ == declare(old(self)@, target@, KindView::Field(field_type@)),
    {
        self.declare(target, Kind::field(field_type));
    }

    /// Completes the declaration of a struct type: the innermost block,
    /// which holds the fields, is closed and becomes the type.
    pub fn struct_type_decl(&mut self, target: &str)
        ensures
            final(self)@ == struct_type_decl(old(self)@, target@),
    {
        if self.contexts.len() < 2 {
            return ;
        }
        let fields = self.contexts.pop().unwrap();
        let mut outer = self.contexts.pop().unwrap();
        proof {
            lemma_struct_view(Box::new(fields));
        }
        let kind = Kind::struct_(Type::Struct_type_(Box::new(fields)));
        rebind_first_in(&mut outer, target, kind);
        self.contexts.push(outer);
        assert(self@ =~~= struct_type_decl(old(self)@, target@));
    }

    /// Completes the declaration of a parameter.
    pub fn param_type_decl(&mut self, target: &str, param_type: Type)
        ensures
            final(self)@ == declare(old(self)@, target@, KindView::Param(param_type@)),
    {
        self.declare(target, Kind::param(param_type));
    }

    /// Completes the declaration of a function, whose name is bound in the
    /// block below the one that holds its parameters.
    pub fn func_type_decl(&mut self, target: &str, return_type: Type, param_types: Vec<Type>)
        ensures
            final(self)@ == func_type_decl(
                old(self)@,
                target@,
                return_type@,
                types_view(param_types@),
            ),
    {
        if self.contexts.len() < 2 {
            return ;
        }
        let func_context = self.contexts.pop().unwrap();
        let mut outer = self.contexts.pop().unwrap();
        proof {
            lemma_function_view(return_type, param_types);
        }
        let kind = Kind::function(return_type, param_types);
        rebind_all_in(&mut outer, target, &kind);
        self.contexts.push(outer);
        self.contexts.push(func_context);
        assert(self@ =~~= func_type_decl(
            old(self)@,
            target@,
            return_type@,
            types_view(param_types@),
        ));
    }

    /// The number of open blocks.
    pub fn depth(&self) -> (r: usize)
        ensures
            r == self@.len(),
    {
        self.contexts.len()
    }
}

} // verus!
