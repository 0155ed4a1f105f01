//! A block of generated C text, identified by what it declares, defines or
//! imports, together with the blocks it depends on.
use vstd::prelude::*;

verus! {

/// What a block of generated code provides.
#[derive(Debug, Clone, PartialEq, Eq, Hash)]
pub enum SourceBlockIdentifier {
    /// An `#include` of the named header.
    Import(String),
    /// A declaration of the named symbol.
    Declartion(String),
    /// A definition of the named symbol.
    Definition(String),
}

/// The mathematical value of a [`SourceBlockIdentifier`].
pub enum BlockId {
    Import(Seq<char>),
    Declaration(Seq<char>),
    Definition(Seq<char>),
}

impl View for SourceBlockIdentifier {
    type V = BlockId;

    open spec fn view(&self) -> BlockId {
        match self {
            SourceBlockIdentifier::Import(p) => BlockId::Import(p@),
            SourceBlockIdentifier::Declartion(n) => BlockId::Declaration(n@),
            SourceBlockIdentifier::Definition(n) => BlockId::Definition(n@),
        }
    }
}

/// The views of a sequence of identifiers.
pub open spec fn ids_view(ids: Seq<SourceBlockIdentifier>) -> Seq<BlockId> {
    ids.map_values(|d: SourceBlockIdentifier| d@)
}

impl SourceBlockIdentifier {
    /// A copy of this identifier.
    pub fn duplicate(&self) -> (r: Self)
        ensures
            r@ == self@,
    {
        match self {
            SourceBlockIdentifier::Import(p) => SourceBlockIdentifier::Import(p.clone()),
            SourceBlockIdentifier::Declartion(n) => SourceBlockIdentifier::Declartion(n.clone()),
            SourceBlockIdentifier::Definition(n) => SourceBlockIdentifier::Definition(n.clone()),
        }
    }

    /// Whether two identifiers are the same: same kind and same name.
    pub fn same_as(&self, other: &Self) -> (r: bool)
        ensures
            r == (self@ == other@),
    {
        match self {
            SourceBlockIdentifier::Import(a) => match other {
                SourceBlockIdentifier::Import(b) => *a == *b,
                _ => false,
            },
            SourceBlockIdentifier::Declartion(a) => match other {
                SourceBlockIdentifier::Declartion(b) => *a == *b,
                _ => false,
            },
            SourceBlockIdentifier::Definition(a) => match other {
                SourceBlockIdentifier::Definition(b) => *a == *b,
                _ => false,
            },
        }
    }
}

/// `deps` extended by `d` unless it already holds `d`.
pub open spec fn push_new(deps: Seq<BlockId>, d: BlockId) -> Seq<BlockId> {
    if deps.contains(d) {
        deps
    } else {
        deps.push(d)
    }
}

/// Appends `d` to `deps` unless it already holds the same identifier.
pub fn push_new_dependency(deps: &mut Vec<SourceBlockIdentifier>, d: SourceBlockIdentifier)
    ensures
        ids_view(final(deps)@) == push_new(ids_view(old(deps)@), d@),
{
    let mut i: usize = 0;
    while i < deps.len()
        invariant
            i <= deps.len(),
            deps@ == old(deps)@,
            forall|j: int| 0 <= j < i ==> deps@[j]@ != d@,
        decreases deps.len() - i,
    {
        if deps[i].same_as(&d) {
            assert(ids_view(deps@)[i as int] == d@);
            return;
        }
        i = i + 1;
    }
    assert(!ids_view(deps@).contains(d@)) by {
        assert forall|j: int| 0 <= j < ids_view(deps@).len() implies ids_view(deps@)[j] != d@ by {}
    }
    let ghost before = ids_view(deps@);
    deps.push(d);
    assert(ids_view(deps@) =~= before.push(d@));
}

/// A piece of generated code.
#[derive(Clone)]
pub struct SourceBlock {
    id: SourceBlockIdentifier,
    content: String,
    dependencies: Vec<SourceBlockIdentifier>,
}

/// The mathematical value of a [`SourceBlock`].
pub struct BlockView {
    pub id: BlockId,
    pub content: Seq<char>,
    pub dependencies: Seq<BlockId>,
}

impl View for SourceBlock {
    type V = BlockView;

    closed spec fn view(&self) -> BlockView {
        BlockView {
            id: self.id@,
            content: self.content@,
            dependencies: ids_view(self.dependencies@),
        }
    }
}

/// The block with the given parts.
pub open spec fn block(id: BlockId, content: Seq<char>, dependencies: Seq<BlockId>) -> BlockView {
    BlockView { id, content, dependencies }
}

impl SourceBlock {
    pub fn new(
        id: SourceBlockIdentifier,
        content: String,
        dependencies: Vec<SourceBlockIdentifier>,
    ) -> (b: Self)
        ensures
            b@ == block(id@, content@, ids_view(dependencies@)),
    {
        SourceBlock { id, content, dependencies }
    }

    pub fn content(&self) -> (c: &str)
        ensures
            c@ == self@.content,
    {
        self.content.as_str()
    }

    pub fn dependencies(&self) -> (d: &Vec<SourceBlockIdentifier>)
        ensures
            ids_view(d@) == self@.dependencies,
    {
        &self.dependencies
    }

    pub fn id(&self) -> (i: &SourceBlockIdentifier)
        ensures
            i@ == self@.id,
    {
        &self.id
    }
}

} // verus!
