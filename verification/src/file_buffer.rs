//! A generated C file under construction: an ordered list of blocks with
//! distinct identifiers, the files it includes, and its rendering as text.
use vstd::prelude::*;
use vstd::string::*;
use crate::errors::Error;
use crate::source_block::{BlockId, BlockView, SourceBlock, SourceBlockIdentifier, ids_view};

verus! {

/// A file of generated code.
pub struct FileBuffer {
    blocks: Vec<SourceBlock>,
    path: String,
    includes: Vec<String>,
}

/// The mathematical value of a [`FileBuffer`].
pub struct FileView {
    pub blocks: Seq<BlockView>,
    pub path: Seq<char>,
    pub includes: Seq<Seq<char>>,
}

/// The views of a sequence of strings.
pub open spec fn strings_view(v: Seq<String>) -> Seq<Seq<char>> {
    v.map_values(|s: String| s@)
}

/// The views of a sequence of blocks.
pub open spec fn blocks_view(v: Seq<SourceBlock>) -> Seq<BlockView> {
    v.map_values(|b: SourceBlock| b@)
}

impl View for FileBuffer {
    type V = FileView;

    closed spec fn view(&self) -> FileView {
        FileView {
            blocks: blocks_view(self.blocks@),
            path: self.path@,
            includes: strings_view(self.includes@),
        }
    }
}

/// Some block among `blocks` has identifier `id`.
pub open spec fn has_id(blocks: Seq<BlockView>, id: BlockId) -> bool {
    exists|i: int| 0 <= i < blocks.len() && (#[trigger] blocks[i]).id == id
}

/// No two blocks share an identifier.
pub open spec fn distinct_ids(blocks: Seq<BlockView>) -> bool {
    forall|i: int, j: int|
        0 <= i < j < blocks.len() ==> (#[trigger] blocks[i]).id != (#[trigger] blocks[j]).id
}

impl FileView {
    /// The invariant every file keeps: its block identifiers are distinct.
    pub open spec fn wf(self) -> bool {
        distinct_ids(self.blocks)
    }
}

/// The effect of adding block `b` to file `f`: a block whose identifier is
/// already present is not added; that is an error unless it is an import.
pub open spec fn add_block_spec(f: FileView, b: BlockView) -> (FileView, Result<(), Error>) {
    if has_id(f.blocks, b.id) {
        (f, if b.id is Import { Ok(()) } else { Err(Error::DuplicatedBlockIdentifier) })
    } else {
        (FileView { blocks: f.blocks.push(b), ..f }, Ok(()))
    }
}

/// Which of the two files a generated block goes to.
#[derive(Debug, Clone, Copy, PartialEq, Eq, Structural)]
pub enum Target {
    Header,
    Source,
}

/// The effect of adding the blocks of `plan` in order, each to its file,
/// stopping at the first error.
pub open spec fn apply_plan(header: FileView, source: FileView, plan: Seq<(Target, BlockView)>) -> (
    FileView,
    FileView,
    Result<(), Error>,
)
    decreases plan.len(),
{
    if plan.len() == 0 {
        (header, source, Ok(()))
    } else {
        let (t, b) = plan[0];
        match t {
            Target::Header => {
                let (h2, r) = add_block_spec(header, b);
                if r is Err {
                    (h2, source, r)
                } else {
                    apply_plan(h2, source, plan.drop_first())
                }
            },
            Target::Source => {
                let (s2, r) = add_block_spec(source, b);
                if r is Err {
                    (header, s2, r)
                } else {
                    apply_plan(header, s2, plan.drop_first())
                }
            },
        }
    }
}

/// The views of a plan.
pub open spec fn plan_view(plan: Seq<(Target, SourceBlock)>) -> Seq<(Target, BlockView)> {
    plan.map_values(|e: (Target, SourceBlock)| (e.0, e.1@))
}

/// The view of an optional string.
pub open spec fn opt_string_view(o: Option<String>) -> Option<Seq<char>> {
    match o {
        Some(s) => Some(s@),
        None => None,
    }
}

/// The line `#include "path"`.
pub open spec fn include_line(path: Seq<char>) -> Seq<char> {
    "#include \""@ + path + "\"\n"@
}

/// The include lines of `paths`, in order.
pub open spec fn include_lines(paths: Seq<Seq<char>>) -> Seq<char>
    decreases paths.len(),
{
    if paths.len() == 0 {
        Seq::empty()
    } else {
        include_lines(paths.drop_last()) + include_line(paths.last())
    }
}

/// The contents of `blocks`, one after the other.
pub open spec fn contents(blocks: Seq<BlockView>) -> Seq<char>
    decreases blocks.len(),
{
    if blocks.len() == 0 {
        Seq::empty()
    } else {
        contents(blocks.drop_last()) + blocks.last().content
    }
}

/// `acc` extended by the import paths among `deps` that it lacks, each once,
/// in order of first appearance.
pub open spec fn add_imports(acc: Seq<Seq<char>>, deps: Seq<BlockId>) -> Seq<Seq<char>>
    decreases deps.len(),
{
    if deps.len() == 0 {
        acc
    } else {
        let a = add_imports(acc, deps.drop_last());
        match deps.last() {
            BlockId::Import(p) => if a.contains(p) {
                a
            } else {
                a.push(p)
            },
            _ => a,
        }
    }
}

/// The headers that the blocks import, each once, in order of first appearance.
pub open spec fn imports(blocks: Seq<BlockView>) -> Seq<Seq<char>>
    decreases blocks.len(),
{
    if blocks.len() == 0 {
        Seq::empty()
    } else {
        add_imports(imports(blocks.drop_last()), blocks.last().dependencies)
    }
}

/// The opening of a header guard named `g`, with a C linkage block for C++.
pub open spec fn guard_open(g: Seq<char>) -> Seq<char> {
    "#ifndef "@ + g + "\n#define "@ + g + "\n#ifdef __cplusplus\nextern \"C\" {\n#endif\n"@
}

/// The closing of a header guard.
pub open spec fn guard_close() -> Seq<char> {
    "\n#ifdef __cplusplus \n}\n#endif\n#endif\n"@
}

/// The text of file `f`: its includes of other generated files, the header
/// guard if any, one include per imported header, then the blocks in order.
pub open spec fn render_spec(f: FileView, guard: Option<Seq<char>>) -> Seq<char> {
    let head = include_lines(f.includes);
    let opened = match guard {
        Some(g) => head + guard_open(g),
        None => head,
    };
    let body = opened + include_lines(imports(f.blocks)) + contents(f.blocks);
    match guard {
        Some(_) => body + guard_close(),
        None => body,
    }
}

/// Whether `paths` holds `p`.
fn contains_string(paths: &Vec<String>, p: &String) -> (r: bool)
    ensures
        r == strings_view(paths@).contains(p@),
{
    let mut i: usize = 0;
    while i < paths.len()
        invariant
            i <= paths.len(),
            forall|j: int| 0 <= j < i ==> paths@[j]@ != p@,
        decreases paths.len() - i,
    {
        if paths[i] == *p {
            assert(strings_view(paths@)[i as int] == p@);
            return true;
        }
        i = i + 1;
    }
    assert forall|j: int| 0 <= j < strings_view(paths@).len() implies strings_view(paths@)[j] != p@ by {}
    false
}

/// Appends `#include "path"` for each of `paths`.
fn push_include_lines(out: &mut String, paths: &Vec<String>)
    ensures
        final(out)@ == old(out)@ + include_lines(strings_view(paths@)),
{
    let mut i: usize = 0;
    while i < paths.len()
        invariant
            i <= paths.len(),
            out@ == old(out)@ + include_lines(strings_view(paths@).take(i as int)),
        decreases paths.len() - i,
    {
        let ghost before = out@;
        out.append("#include \"");
        out.append(paths[i].as_str());
        out.append("\"\n");
        assert(strings_view(paths@).take(i + 1).drop_last() =~= strings_view(paths@).take(i as int));
        assert(out@ =~= old(out)@ + include_lines(strings_view(paths@).take(i + 1)));
        i = i + 1;
    }
    assert(strings_view(paths@).take(paths.len() as int) =~= strings_view(paths@));
}

/// What std's `Debug` formatting gives for a string: the string quoted,
/// with its special characters escaped.
pub uninterp spec fn debug_quoted(s: Seq<char>) -> Seq<char>;

/// Formats `s` with std's `Debug` for `str`. The contract only names the
/// result: a function of `s` alone; its escaping rules are not stated.
#[verifier::external_body]
fn debug_quote(s: &str) -> (r: String)
    ensures
        r@ == debug_quoted(s@),
{
    format!("{:?}", s)
}

/// The name an identifier carries: the header path of an import, the
/// symbol of a declaration or definition.
pub open spec fn id_name(id: BlockId) -> Seq<char> {
    match id {
        BlockId::Import(p) => p,
        BlockId::Declaration(n) => n,
        BlockId::Definition(n) => n,
    }
}

/// The debug form of an identifier, as `derive(Debug)` writes it, given its
/// name already quoted: the kind, then the quoted name in parentheses.
pub open spec fn id_debug_quoted(id: BlockId, quoted: Seq<char>) -> Seq<char> {
    match id {
        BlockId::Import(_) => "Import("@ + quoted + ")"@,
        BlockId::Declaration(_) => "Declartion("@ + quoted + ")"@,
        BlockId::Definition(_) => "Definition("@ + quoted + ")"@,
    }
}

/// The debug form of an identifier, as `derive(Debug)` writes it.
pub open spec fn id_debug(id: BlockId) -> Seq<char> {
    id_debug_quoted(id, debug_quoted(id_name(id)))
}

/// Each block as a comment line holding its identifier, then its content.
pub open spec fn debug_blocks(blocks: Seq<BlockView>) -> Seq<char>
    decreases blocks.len(),
{
    if blocks.len() == 0 {
        Seq::empty()
    } else {
        debug_blocks(blocks.drop_last()) + "//"@ + id_debug(blocks.last().id) + "\n"@ + blocks.last().content
    }
}

/// The debug text of a file: its path, then its blocks.
pub open spec fn debug_spec(f: FileView) -> Seq<char> {
    "FILE = "@ + f.path + "\n"@ + debug_blocks(f.blocks)
}

/// The debug form of `id`, given its name already quoted as `quoted`.
pub fn id_debug_text_quoted(id: &SourceBlockIdentifier, quoted: &str) -> (t: String)
    ensures
        t@ == id_debug_quoted(id@, quoted@),
{
    let mut t = String::new();
    match id {
        SourceBlockIdentifier::Import(_) => t.append("Import("),
        SourceBlockIdentifier::Declartion(_) => t.append("Declartion("),
        SourceBlockIdentifier::Definition(_) => t.append("Definition("),
    }
    t.append(quoted);
    t.append(")");
    t
}

/// The debug form of `id`.
fn id_debug_text(id: &SourceBlockIdentifier) -> (t: String)
    ensures
        t@ == id_debug(id@),
{
    let name = match id {
        SourceBlockIdentifier::Import(p) => p,
        SourceBlockIdentifier::Declartion(n) => n,
        SourceBlockIdentifier::Definition(n) => n,
    };
    let quoted = debug_quote(name.as_str());
    id_debug_text_quoted(id, quoted.as_str())
}

impl FileBuffer {
    /// An empty file at `path`.
    pub fn new(path: &str) -> (f: Self)
        ensures
            f@ == (FileView { blocks: Seq::empty(), path: path@, includes: Seq::empty() }),
            f@.wf(),
    {
        let f = FileBuffer { blocks: Vec::new(), path: path.to_owned(), includes: Vec::new() };
        assert(f@.blocks =~= Seq::<BlockView>::empty());
        assert(f@.includes =~= Seq::<Seq<char>>::empty());
        f
    }

    /// The path of this file.
    pub fn path(&self) -> (p: &str)
        ensures
            p@ == self@.path,
    {
        self.path.as_str()
    }

    /// Adds `block` unless a block with its identifier is present; a repeated
    /// import is ignored, a repeated declaration or definition is an error.
    pub fn add_block(&mut self, block: SourceBlock) -> (r: Result<(), Error>)
        ensures
            (final(self)@, r) == add_block_spec(old(self)@, block@),
            old(self)@.wf() ==> final(self)@.wf(),
    {
        let allow_dup = match block.id() {
            SourceBlockIdentifier::Import(_) => true,
            SourceBlockIdentifier::Declartion(_) => false,
            SourceBlockIdentifier::Definition(_) => false,
        };
        let mut i: usize = 0;
        let mut found = false;
        while i < self.blocks.len()
            invariant
                i <= self.blocks.len(),
                self@ == old(self)@,
                found ==> has_id(self@.blocks, block@.id),
                !found ==> forall|j: int| 0 <= j < i ==> self@.blocks[j].id != block@.id,
            decreases self.blocks.len() - i,
        {
            if self.blocks[i].id().same_as(block.id()) {
                assert(self@.blocks[i as int] == self.blocks@[i as int]@);
                found = true;
            }
            assert(self@.blocks[i as int] == self.blocks@[i as int]@);
            i = i + 1;
        }
        if found {
            if !allow_dup {
                return Err(Error::DuplicatedBlockIdentifier);
            } else {
                return Ok(());
            }
        }
        let ghost old_blocks = self@.blocks;
        self.blocks.push(block);
        assert(self@.blocks =~= old_blocks.push(block@));
        Ok(())
    }

    /// Records that this file includes `buffer`.
    pub fn include_file_buffer(&mut self, buffer: &FileBuffer)
        ensures
            final(self)@ == (FileView { includes: old(self)@.includes.push(buffer@.path), ..old(self)@ }),
    {
        let ghost before = self@;
        self.includes.push(buffer.path.clone());
        assert(self@.includes =~= before.includes.push(buffer@.path));
    }

    /// The headers imported by the blocks of this file, each once, in order
    /// of first appearance.
    fn import_paths(&self) -> (r: Vec<String>)
        ensures
            strings_view(r@) == imports(self@.blocks),
    {
        let mut acc: Vec<String> = Vec::new();
        let mut i: usize = 0;
        assert(self@.blocks.take(0) =~= Seq::<BlockView>::empty());
        while i < self.blocks.len()
            invariant
                i <= self.blocks.len(),
                strings_view(acc@) == imports(self@.blocks.take(i as int)),
            decreases self.blocks.len() - i,
        {
            let deps = self.blocks[i].dependencies();
            let ghost start = strings_view(acc@);
            let mut j: usize = 0;
            assert(ids_view(deps@).take(0) =~= Seq::<BlockId>::empty());
            while j < deps.len()
                invariant
                    j <= deps.len(),
                    strings_view(acc@) == add_imports(start, ids_view(deps@).take(j as int)),
                decreases deps.len() - j,
            {
                assert(ids_view(deps@).take(j + 1).drop_last() =~= ids_view(deps@).take(j as int));
                match &deps[j] {
                    SourceBlockIdentifier::Import(p) => {
                        if !contains_string(&acc, p) {
                            let ghost a = strings_view(acc@);
                            acc.push(p.clone());
                            assert(strings_view(acc@) =~= a.push(p@));
                        }
                    },
                    _ => {},
                }
                j = j + 1;
            }
            assert(ids_view(deps@).take(deps.len() as int) =~= ids_view(deps@));
            assert(self@.blocks.take(i + 1).drop_last() =~= self@.blocks.take(i as int));
            assert(self@.blocks[i as int] == self.blocks@[i as int]@);
            i = i + 1;
        }
        assert(self@.blocks.take(self.blocks.len() as int) =~= self@.blocks);
        acc
    }

    /// The text of this file, with a header guard named `header_guard` if
    /// one is given.
    pub fn render(&self, header_guard: Option<String>) -> (text: String)
        ensures
            text@ == render_spec(self@, opt_string_view(header_guard)),
    {
        let mut content = String::new();
        push_include_lines(&mut content, &self.includes);
        let includes = self.import_paths();
        let guarded = match &header_guard {
            Some(g) => {
                content.append("#ifndef ");
                content.append(g.as_str());
                content.append("\n#define ");
                content.append(g.as_str());
                content.append("\n#ifdef __cplusplus\nextern \"C\" {\n#endif\n");
                true
            },
            None => false,
        };
        push_include_lines(&mut content, &includes);
        let mut i: usize = 0;
        let ghost start = content@;
        assert(self@.blocks.take(0) =~= Seq::<BlockView>::empty());
        while i < self.blocks.len()
            invariant
                i <= self.blocks.len(),
                content@ == start + contents(self@.blocks.take(i as int)),
            decreases self.blocks.len() - i,
        {
            content.append(self.blocks[i].content());
            assert(self@.blocks.take(i + 1).drop_last() =~= self@.blocks.take(i as int));
            assert(self@.blocks[i as int] == self.blocks@[i as int]@);
            assert(content@ =~= start + contents(self@.blocks.take(i + 1)));
            i = i + 1;
        }
        assert(self@.blocks.take(self.blocks.len() as int) =~= self@.blocks);
        if guarded {
            content.append("\n#ifdef __cplusplus \n}\n#endif\n#endif\n");
        }
        assert(content@ =~= render_spec(self@, opt_string_view(header_guard)));
        content
    }

    /// The debug text of this file: `FILE = <path>`, then for each block a
    /// comment line with its identifier followed by its content.
    pub fn debug_text(&self) -> (text: String)
        ensures
            text@ == debug_spec(self@),
    {
        let mut text = String::new();
        text.append("FILE = ");
        text.append(self.path.as_str());
        text.append("\n");
        let ghost start = text@;
        let mut i: usize = 0;
        assert(self@.blocks.take(0) =~= Seq::<BlockView>::empty());
        while i < self.blocks.len()
            invariant
                i <= self.blocks.len(),
                text@ == start + debug_blocks(self@.blocks.take(i as int)),
            decreases self.blocks.len() - i,
        {
            text.append("//");
            text.append(id_debug_text(self.blocks[i].id()).as_str());
            text.append("\n");
            text.append(self.blocks[i].content());
            assert(self@.blocks.take(i + 1).drop_last() =~= self@.blocks.take(i as int));
            assert(self@.blocks[i as int] == self.blocks@[i as int]@);
            assert(text@ =~= start + debug_blocks(self@.blocks.take(i + 1)));
            i = i + 1;
        }
        assert(self@.blocks.take(self.blocks.len() as int) =~= self@.blocks);
        text
    }
}

/// The effect of adding `blocks` in order to file `f`, stopping at the first
/// error.
pub open spec fn add_blocks_spec(f: FileView, blocks: Seq<BlockView>) -> (FileView, Result<(), Error>)
    decreases blocks.len(),
{
    if blocks.len() == 0 {
        (f, Ok(()))
    } else {
        let (f2, r) = add_block_spec(f, blocks[0]);
        if r is Err {
            (f2, r)
        } else {
            add_blocks_spec(f2, blocks.drop_first())
        }
    }
}

/// Adds `blocks` in order to `file`, stopping at the first error.
pub fn add_blocks(file: &mut FileBuffer, blocks: Vec<SourceBlock>) -> (r: Result<(), Error>)
    ensures
        (final(file)@, r) == add_blocks_spec(old(file)@, blocks_view(blocks@)),
        old(file)@.wf() ==> final(file)@.wf(),
{
    let mut rest = blocks;
    let ghost whole = blocks_view(rest@);
    while rest.len() > 0
        invariant
            whole == blocks_view(blocks@),
            add_blocks_spec(old(file)@, whole) == add_blocks_spec(file@, blocks_view(rest@)),
            old(file)@.wf() ==> file@.wf(),
        decreases rest.len(),
    {
        let ghost bv = blocks_view(rest@);
        let ghost f0 = file@;
        let b = rest.remove(0);
        assert(bv[0] == b@);
        assert(blocks_view(rest@) =~= bv.drop_first());
        let r = file.add_block(b);
        assert(add_blocks_spec(f0, bv) == if r is Err {
            (file@, r)
        } else {
            add_blocks_spec(file@, bv.drop_first())
        });
        if r.is_err() {
            return r;
        }
    }
    Ok(())
}

/// Adds the blocks of `plan` in order, each to its file, stopping at the
/// first error.
pub fn run_plan(header: &mut FileBuffer, source: &mut FileBuffer, plan: Vec<(Target, SourceBlock)>) -> (r:
    Result<(), Error>)
    ensures
        (final(header)@, final(source)@, r) == apply_plan(old(header)@, old(source)@, plan_view(plan@)),
        old(header)@.wf() ==> final(header)@.wf(),
        old(source)@.wf() ==> final(source)@.wf(),
{
    let mut rest = plan;
    let ghost whole = plan_view(rest@);
    while rest.len() > 0
        invariant
            whole == plan_view(plan@),
            apply_plan(old(header)@, old(source)@, whole) == apply_plan(header@, source@, plan_view(rest@)),
            old(header)@.wf() ==> header@.wf(),
            old(source)@.wf() ==> source@.wf(),
        decreases rest.len(),
    {
        let ghost pv = plan_view(rest@);
        let ghost h0 = header@;
        let ghost s0 = source@;
        let (t, b) = rest.remove(0);
        assert(pv[0] == (t, b@));
        assert(plan_view(rest@) =~= pv.drop_first());
        let r = match t {
            Target::Header => header.add_block(b),
            Target::Source => source.add_block(b),
        };
        assert(apply_plan(h0, s0, pv) == if r is Err {
            (header@, source@, r)
        } else {
            apply_plan(header@, source@, pv.drop_first())
        });
        if r.is_err() {
            return r;
        }
    }
    Ok(())
}

// ---------------------------------------------------------------- laws

/// Adding a block keeps a file's identifiers distinct, and leaves its path
/// and includes as they were.
pub proof fn law_add_block_keeps_file(f: FileView, b: BlockView)
    ensures
        f.wf() ==> add_block_spec(f, b).0.wf(),
        add_block_spec(f, b).0.path == f.path,
        add_block_spec(f, b).0.includes == f.includes,
{
    if f.wf() && !has_id(f.blocks, b.id) {
        let g = add_block_spec(f, b).0;
        assert forall|i: int, j: int| 0 <= i < j < g.blocks.len() implies (#[trigger] g.blocks[i]).id != (
        #[trigger] g.blocks[j]).id by {
            if j == f.blocks.len() {
                assert(f.blocks[i] == g.blocks[i]);
            } else {
                assert(f.blocks[i] == g.blocks[i]);
                assert(f.blocks[j] == g.blocks[j]);
            }
        }
    }
}

/// A declaration or definition whose identifier a file already holds is
/// refused, and the file is left as it was.
pub proof fn law_duplicate_refused(f: FileView, b: BlockView)
    requires
        has_id(f.blocks, b.id),
        !(b.id is Import),
    ensures
        add_block_spec(f, b) == (f, Err::<(), Error>(Error::DuplicatedBlockIdentifier)),
{
}

/// Adding an import a second time changes nothing and succeeds.
pub proof fn law_import_idempotent(f: FileView, b: BlockView)
    requires
        b.id is Import,
    ensures
        add_block_spec(add_block_spec(f, b).0, b) == (add_block_spec(f, b).0, Ok::<(), Error>(())),
{
    let g = add_block_spec(f, b).0;
    if !has_id(f.blocks, b.id) {
        assert(g.blocks[f.blocks.len() as int] == b);
    }
    assert(has_id(g.blocks, b.id));
}

/// After a block is offered to a file, the file holds a block with its
/// identifier, and the blocks it held before stay first, in order.
pub proof fn law_block_present_after_add(f: FileView, b: BlockView)
    ensures
        has_id(add_block_spec(f, b).0.blocks, b.id),
        f.blocks.is_prefix_of(add_block_spec(f, b).0.blocks),
{
    let g = add_block_spec(f, b).0;
    if !has_id(f.blocks, b.id) {
        assert(g.blocks[f.blocks.len() as int] == b);
    }
}

/// Adding blocks in order keeps a file's identifiers distinct and its path
/// and includes.
pub proof fn law_add_blocks_keeps_file(f: FileView, blocks: Seq<BlockView>)
    ensures
        f.wf() ==> add_blocks_spec(f, blocks).0.wf(),
        add_blocks_spec(f, blocks).0.path == f.path,
        add_blocks_spec(f, blocks).0.includes == f.includes,
    decreases blocks.len(),
{
    if blocks.len() > 0 {
        law_add_block_keeps_file(f, blocks[0]);
        law_add_blocks_keeps_file(add_block_spec(f, blocks[0]).0, blocks.drop_first());
    }
}

/// Carrying out a plan keeps the identifiers of both files distinct and
/// their paths and includes.
pub proof fn law_apply_plan_keeps_files(header: FileView, source: FileView, plan: Seq<(Target, BlockView)>)
    ensures
        header.wf() ==> apply_plan(header, source, plan).0.wf(),
        source.wf() ==> apply_plan(header, source, plan).1.wf(),
        apply_plan(header, source, plan).0.path == header.path,
        apply_plan(header, source, plan).0.includes == header.includes,
        apply_plan(header, source, plan).1.path == source.path,
        apply_plan(header, source, plan).1.includes == source.includes,
    decreases plan.len(),
{
    if plan.len() > 0 {
        let (t, b) = plan[0];
        law_add_block_keeps_file(header, b);
        law_add_block_keeps_file(source, b);
        match t {
            Target::Header => law_apply_plan_keeps_files(add_block_spec(header, b).0, source, plan.drop_first()),
            Target::Source => law_apply_plan_keeps_files(header, add_block_spec(source, b).0, plan.drop_first()),
        }
    }
}

/// Some dependency among `deps` imports `p`.
pub open spec fn imports_path(deps: Seq<BlockId>, p: Seq<char>) -> bool {
    exists|j: int| 0 <= j < deps.len() && deps[j] == BlockId::Import(p)
}

proof fn lemma_imports_path_last(deps: Seq<BlockId>, p: Seq<char>)
    requires
        deps.len() > 0,
    ensures
        imports_path(deps, p) <==> (imports_path(deps.drop_last(), p) || deps.last() == BlockId::Import(p)),
{
    if imports_path(deps, p) {
        let j = choose|j: int| 0 <= j < deps.len() && deps[j] == BlockId::Import(p);
        if j < deps.len() - 1 {
            assert(deps.drop_last()[j] == deps[j]);
        }
    }
    if imports_path(deps.drop_last(), p) {
        let j = choose|j: int| 0 <= j < deps.drop_last().len() && deps.drop_last()[j] == BlockId::Import(p);
        assert(deps[j] == deps.drop_last()[j]);
    }
    if deps.last() == BlockId::Import(p) {
        assert(deps[deps.len() - 1] == BlockId::Import(p));
    }
}

proof fn lemma_push_contains(a: Seq<Seq<char>>, q: Seq<char>, p: Seq<char>)
    ensures
        a.push(q).contains(p) <==> (a.contains(p) || q == p),
{
    if a.contains(p) {
        let k = choose|k: int| 0 <= k < a.len() && a[k] == p;
        assert(a.push(q)[k] == p);
    }
    if q == p {
        assert(a.push(q)[a.len() as int] == p);
    }
    if a.push(q).contains(p) {
        let k = choose|k: int| 0 <= k < a.push(q).len() && a.push(q)[k] == p;
        if k < a.len() {
            assert(a[k] == p);
        }
    }
}

proof fn lemma_add_imports(acc: Seq<Seq<char>>, deps: Seq<BlockId>)
    ensures
        acc.no_duplicates() ==> add_imports(acc, deps).no_duplicates(),
        forall|p: Seq<char>|
            #[trigger] add_imports(acc, deps).contains(p) <==> (acc.contains(p) || imports_path(deps, p)),
    decreases deps.len(),
{
    if deps.len() > 0 {
        lemma_add_imports(acc, deps.drop_last());
        let a = add_imports(acc, deps.drop_last());
        assert forall|p: Seq<char>| #[trigger]
            add_imports(acc, deps).contains(p) <==> (acc.contains(p) || imports_path(deps, p)) by {
            lemma_imports_path_last(deps, p);
            match deps.last() {
                BlockId::Import(q) => {
                    lemma_push_contains(a, q, p);
                },
                _ => {},
            }
        }
    } else {
        assert forall|p: Seq<char>| !imports_path(deps, p) by {}
    }
}

/// Some block among `blocks` imports `p`.
pub open spec fn blocks_import(blocks: Seq<BlockView>, p: Seq<char>) -> bool {
    exists|i: int| 0 <= i < blocks.len() && imports_path(#[trigger] blocks[i].dependencies, p)
}

/// The headers a rendered file includes for its blocks are each included
/// once, and they are exactly the headers that some block imports.
pub proof fn law_imports_exact(blocks: Seq<BlockView>)
    ensures
        imports(blocks).no_duplicates(),
        forall|p: Seq<char>| #[trigger] imports(blocks).contains(p) <==> blocks_import(blocks, p),
    decreases blocks.len(),
{
    if blocks.len() > 0 {
        law_imports_exact(blocks.drop_last());
        let rest = imports(blocks.drop_last());
        lemma_add_imports(rest, blocks.last().dependencies);
        assert forall|p: Seq<char>| #[trigger] imports(blocks).contains(p) <==> blocks_import(blocks, p) by {
            if blocks_import(blocks, p) {
                let i = choose|i: int| 0 <= i < blocks.len() && imports_path(#[trigger] blocks[i].dependencies, p);
                if i < blocks.len() - 1 {
                    assert(blocks.drop_last()[i] == blocks[i]);
                    assert(blocks_import(blocks.drop_last(), p));
                }
            }
            if blocks_import(blocks.drop_last(), p) {
                let i = choose|i: int|
                    0 <= i < blocks.drop_last().len() && imports_path(#[trigger] blocks.drop_last()[i].dependencies, p);
                assert(blocks[i] == blocks.drop_last()[i]);
            }
            if imports_path(blocks.last().dependencies, p) {
                assert(imports_path(blocks[blocks.len() - 1].dependencies, p));
            }
        }
    } else {
        assert(imports(blocks) =~= Seq::<Seq<char>>::empty());
    }
}

/// Adding `a + b` is adding `a`, then, unless that failed, adding `b`.
pub proof fn lemma_add_blocks_concat(f: FileView, a: Seq<BlockView>, b: Seq<BlockView>)
    ensures
        add_blocks_spec(f, a + b) == (if add_blocks_spec(f, a).1 is Err {
            add_blocks_spec(f, a)
        } else {
            add_blocks_spec(add_blocks_spec(f, a).0, b)
        }),
    decreases a.len(),
{
    if a.len() == 0 {
        assert(a + b =~= b);
    } else {
        assert((a + b)[0] == a[0]);
        assert((a + b).drop_first() =~= a.drop_first() + b);
        lemma_add_blocks_concat(add_block_spec(f, a[0]).0, a.drop_first(), b);
    }
}

/// Carrying out `a + b` is carrying out `a`, then, unless that failed, `b`.
pub proof fn lemma_apply_plan_concat(
    header: FileView,
    source: FileView,
    a: Seq<(Target, BlockView)>,
    b: Seq<(Target, BlockView)>,
)
    ensures
        apply_plan(header, source, a + b) == (if apply_plan(header, source, a).2 is Err {
            apply_plan(header, source, a)
        } else {
            apply_plan(apply_plan(header, source, a).0, apply_plan(header, source, a).1, b)
        }),
    decreases a.len(),
{
    if a.len() == 0 {
        assert(a + b =~= b);
    } else {
        assert((a + b)[0] == a[0]);
        assert((a + b).drop_first() =~= a.drop_first() + b);
        let (t, blk) = a[0];
        match t {
            Target::Header => lemma_apply_plan_concat(add_block_spec(header, blk).0, source, a.drop_first(), b),
            Target::Source => lemma_apply_plan_concat(header, add_block_spec(source, blk).0, a.drop_first(), b),
        }
    }
}

/// Adding a single block through [`add_blocks_spec`] is [`add_block_spec`].
pub proof fn lemma_add_blocks_single(f: FileView, b: BlockView)
    ensures
        add_blocks_spec(f, seq![b]) == add_block_spec(f, b),
{
    let g = add_block_spec(f, b).0;
    assert(seq![b].drop_first() =~= Seq::<BlockView>::empty());
    assert(add_blocks_spec(g, Seq::<BlockView>::empty()) == (g, Ok::<(), Error>(())));
}

/// A successful outcome carries nothing.
pub proof fn lemma_ok_is_unit(r: Result<(), Error>)
    requires
        r is Ok,
    ensures
        r == Ok::<(), Error>(()),
{
    match r {
        Ok(u) => {
            assert(u == ());
        },
        Err(_) => {},
    }
}

} // verus!
