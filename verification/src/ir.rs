//! The IR store: append-only arenas of modules, functions, blocks,
//! instructions, inline-assembly bodies and metadata, owned by a [`Context`]
//! and cross-referenced by index-based handles.  Handles are never reused or
//! invalidated, so a well-formed `Context` (see [`Context::wf`]) stays
//! well-formed for its entire lifetime.

use vstd::prelude::*;

verus! {

/// One operation inside an inline-assembly block, identified by an exact
/// mnemonic string and an operand list.
#[derive(Debug, Clone, PartialEq)]
pub struct AsmOp {
    pub name: String,
    pub args: Vec<String>,
}

/// The ordered operation sequence embedded in an inline-assembly
/// instruction, stored in the Context's arena.
#[derive(Debug, Clone, PartialEq)]
pub struct AsmBlockContent {
    pub body: Vec<AsmOp>,
}

/// The closed set of instruction shapes.  Branches and returns end a block's
/// control flow; inline assembly is the only carrier of storage operations.
#[derive(Debug, Clone, Copy, PartialEq, Eq, Structural)]
pub enum Instruction {
    /// An inline-assembly block: handle into the Context's asm arena.
    AsmBlock(usize),
    /// An unconditional branch to a block handle.
    Branch(usize),
    /// A conditional branch to two block handles.
    ConditionalBranch(usize, usize),
    /// A return from the enclosing function.
    Ret,
    /// An ordinary arithmetic or logical operation.
    BinaryOp,
    /// A store to memory.
    Store,
    /// A load from memory.
    Load,
    /// A phi placeholder left behind by earlier lowering.
    Phi,
}

impl Instruction {
    /// Whether this instruction ends a block's control flow.
    pub open spec fn spec_is_terminator(self) -> bool {
        match self {
            Instruction::Branch(_) => true,
            Instruction::ConditionalBranch(_, _) => true,
            Instruction::Ret => true,
            _ => false,
        }
    }

    /// Whether this instruction ends a block's control flow.
    pub fn is_terminator(&self) -> (r: bool)
        ensures
            r == self.spec_is_terminator(),
    {
        match self {
            Instruction::Branch(_) => true,
            Instruction::ConditionalBranch(_, _) => true,
            Instruction::Ret => true,
            _ => false,
        }
    }

    /// Whether this instruction can transfer control into the block with
    /// handle `target`, i.e. whether it makes that block a successor.
    pub open spec fn spec_targets(self, target: int) -> bool {
        match self {
            Instruction::Branch(t) => t == target,
            Instruction::ConditionalBranch(t, f) => t == target || f == target,
            _ => false,
        }
    }

    /// Whether this instruction branches to the block with handle `target`.
    pub fn targets(&self, target: usize) -> (r: bool)
        ensures
            r == self.spec_targets(target as int),
    {
        match self {
            Instruction::Branch(t) => *t == target,
            Instruction::ConditionalBranch(t, f) => *t == target || *f == target,
            _ => false,
        }
    }
}

/// A basic block: a label and an ordered sequence of instruction handles.
#[derive(Debug, Clone, PartialEq)]
pub struct BlockContent {
    pub label: String,
    pub instructions: Vec<usize>,
}

/// A function: a name, the ordered block handles forming its body, an
/// optional handle to its declared storage-purity attribute and an optional
/// handle to its source-span record.
#[derive(Debug, Clone, PartialEq)]
pub struct FunctionContent {
    pub name: String,
    pub blocks: Vec<usize>,
    pub storage_md_idx: Option<usize>,
    pub span_md_idx: Option<usize>,
}

/// A compiled unit: an ordered list of function handles.
#[derive(Debug, Clone, PartialEq)]
pub struct ModuleContent {
    pub functions: Vec<usize>,
}

/// The closed set of metadata payloads a handle can resolve to.
#[derive(Debug, Clone, Copy, PartialEq, Eq, Structural)]
pub enum Metadatum {
    /// A declared storage-purity attribute.
    StorageAttribute(crate::error::StorageOperation),
    /// A source-span record.
    Span(crate::error::SourceSpan),
}

/// The IR store.  Every cross-reference in the arenas is an index into one
/// of the sibling arenas; [`Context::wf`] says that none of them dangles.
#[derive(Debug, Clone, PartialEq)]
pub struct Context {
    pub modules: Vec<ModuleContent>,
    pub functions: Vec<FunctionContent>,
    pub blocks: Vec<BlockContent>,
    pub instrs: Vec<Instruction>,
    pub asm_blocks: Vec<AsmBlockContent>,
    pub metadata: Vec<Metadatum>,
}

impl Context {
    /// Every handle held by `i` resolves inside this Context.
    pub open spec fn wf_instruction(self, i: Instruction) -> bool {
        match i {
            Instruction::AsmBlock(a) => a < self.asm_blocks.len(),
            Instruction::Branch(t) => t < self.blocks.len(),
            Instruction::ConditionalBranch(t, f) => t < self.blocks.len() && f
                < self.blocks.len(),
            _ => true,
        }
    }

    /// Every instruction handle of `b` resolves inside this Context.
    pub open spec fn wf_block(self, b: BlockContent) -> bool {
        forall|k: int|
            0 <= k < b.instructions.len() ==> b.instructions[k] < self.instrs.len()
    }

    /// Every block and metadata handle of `f` resolves inside this Context.
    pub open spec fn wf_function(self, f: FunctionContent) -> bool {
        &&& forall|k: int| 0 <= k < f.blocks.len() ==> f.blocks[k] < self.blocks.len()
        &&& match f.storage_md_idx {
            Some(m) => m < self.metadata.len(),
            None => true,
        }
        &&& match f.span_md_idx {
            Some(m) => m < self.metadata.len(),
            None => true,
        }
    }

    /// Every function handle of `m` resolves inside this Context.
    pub open spec fn wf_module(self, m: ModuleContent) -> bool {
        forall|k: int|
            0 <= k < m.functions.len() ==> m.functions[k] < self.functions.len()
    }

    /// No handle anywhere in the store dangles.  This is established by the
    /// lowering stage that builds the Context (the arenas are append-only and
    /// handles are never reused) and is preserved by the read-only
    /// verification pass.
    pub open spec fn wf(self) -> bool {
        &&& forall|k: int| 0 <= k < self.modules.len() ==> self.wf_module(#[trigger] self.modules[k])
        &&& forall|k: int|
            0 <= k < self.functions.len() ==> self.wf_function(#[trigger] self.functions[k])
        &&& forall|k: int| 0 <= k < self.blocks.len() ==> self.wf_block(#[trigger] self.blocks[k])
        &&& forall|k: int|
            0 <= k < self.instrs.len() ==> self.wf_instruction(#[trigger] self.instrs[k])
    }
}

} // verus!
