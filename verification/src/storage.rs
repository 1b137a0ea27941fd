//! Storage-purity verification: infer the actual storage read/write
//! behaviour of one function from the inline-assembly operations embedded in
//! its body, and reconcile it against the function's declared purity
//! attribute.
//!
//! Storage can only be touched through inline-assembly blocks, so the
//! inference is a flow-insensitive existence check over the whole function
//! body: a single read-mnemonic anywhere sets the "reads observed" flag, a
//! single write-mnemonic the "writes observed" flag, and all other mnemonics
//! are ignored.

use vstd::prelude::*;

use crate::error::{IrError, SourceSpan, StorageOperation};
use crate::ir::{AsmBlockContent, AsmOp, BlockContent, Context, FunctionContent, Instruction,
    Metadatum};

verus! {

/// Whether `name` is one of the two storage-read mnemonics.
pub open spec fn spec_is_read_mnemonic(name: Seq<char>) -> bool {
    name == "srw"@ || name == "srwq"@
}

/// Whether `name` is one of the two storage-write mnemonics.
pub open spec fn spec_is_write_mnemonic(name: Seq<char>) -> bool {
    name == "sww"@ || name == "swwq"@
}

/// Whether `name` is one of the two storage-read mnemonics.
pub fn is_read_mnemonic(name: &String) -> (r: bool)
    ensures
        r == spec_is_read_mnemonic(name@),
{
    let srw: String = "srw".to_owned();
    let srwq: String = "srwq".to_owned();
    *name == srw || *name == srwq
}

/// Whether `name` is one of the two storage-write mnemonics.
pub fn is_write_mnemonic(name: &String) -> (r: bool)
    ensures
        r == spec_is_write_mnemonic(name@),
{
    let sww: String = "sww".to_owned();
    let swwq: String = "swwq".to_owned();
    *name == sww || *name == swwq
}

/// Whether an inline-assembly body contains a storage-read operation.
pub open spec fn spec_asm_reads(body: Seq<AsmOp>) -> bool {
    exists|k: int| 0 <= k < body.len() && spec_is_read_mnemonic(body[k].name@)
}

/// Whether an inline-assembly body contains a storage-write operation.
pub open spec fn spec_asm_writes(body: Seq<AsmOp>) -> bool {
    exists|k: int| 0 <= k < body.len() && spec_is_write_mnemonic(body[k].name@)
}

/// Whether `i` is an inline-assembly instruction whose body reads storage.
pub open spec fn spec_instr_reads(ctx: Context, i: Instruction) -> bool {
    match i {
        Instruction::AsmBlock(a) => spec_asm_reads(ctx.asm_blocks[a as int].body@),
        _ => false,
    }
}

/// Whether `i` is an inline-assembly instruction whose body writes storage.
pub open spec fn spec_instr_writes(ctx: Context, i: Instruction) -> bool {
    match i {
        Instruction::AsmBlock(a) => spec_asm_writes(ctx.asm_blocks[a as int].body@),
        _ => false,
    }
}

/// Whether some instruction of block `b` reads storage.
pub open spec fn spec_block_reads(ctx: Context, b: BlockContent) -> bool {
    exists|k: int|
        0 <= k < b.instructions.len() && spec_instr_reads(
            ctx,
            ctx.instrs[b.instructions[k] as int],
        )
}

/// Whether some instruction of block `b` writes storage.
pub open spec fn spec_block_writes(ctx: Context, b: BlockContent) -> bool {
    exists|k: int|
        0 <= k < b.instructions.len() && spec_instr_writes(
            ctx,
            ctx.instrs[b.instructions[k] as int],
        )
}

/// Whether some instruction anywhere in the body of `f` reads storage.
pub open spec fn spec_function_reads(ctx: Context, f: FunctionContent) -> bool {
    exists|k: int|
        0 <= k < f.blocks.len() && spec_block_reads(ctx, ctx.blocks[f.blocks[k] as int])
}

/// Whether some instruction anywhere in the body of `f` writes storage.
pub open spec fn spec_function_writes(ctx: Context, f: FunctionContent) -> bool {
    exists|k: int|
        0 <= k < f.blocks.len() && spec_block_writes(ctx, ctx.blocks[f.blocks[k] as int])
}

/// The storage attribute `f` declares: `None` when the function carries no
/// attribute handle, or when the handle resolves to a non-attribute payload.
pub open spec fn spec_declared_purity(ctx: Context, f: FunctionContent) -> Option<
    StorageOperation,
> {
    match f.storage_md_idx {
        Some(idx) => match ctx.metadata[idx as int] {
            Metadatum::StorageAttribute(op) => Some(op),
            _ => None,
        },
        None => None,
    }
}

/// The best-effort span of `f`: its span record if one resolves, else the
/// sentinel unknown span.
pub open spec fn spec_function_span(ctx: Context, f: FunctionContent) -> SourceSpan {
    match f.span_md_idx {
        Some(idx) => match ctx.metadata[idx as int] {
            Metadatum::Span(s) => s,
            _ => SourceSpan::spec_unknown(),
        },
        None => SourceSpan::spec_unknown(),
    }
}

/// The reconciliation table: what one function's storage verification
/// returns, as a function of its declared attribute and the two observed
/// direction flags.  Exactly two combinations succeed: no declared attribute
/// with nothing observed, and `ReadsWrites` with both directions observed.
pub open spec fn spec_reconcile(
    declared: Option<StorageOperation>,
    reads: bool,
    writes: bool,
    span: SourceSpan,
) -> Result<(), IrError> {
    match declared {
        None => {
            if reads && writes {
                Err(IrError::StorageMissingAttribute(StorageOperation::ReadsWrites, span))
            } else if reads {
                Err(IrError::StorageMissingAttribute(StorageOperation::Reads, span))
            } else if writes {
                Err(IrError::StorageMissingAttribute(StorageOperation::Writes, span))
            } else {
                Ok(())
            }
        },
        Some(StorageOperation::Reads) => {
            if reads && writes {
                Err(IrError::StorageMismatchedAttribute(StorageOperation::ReadsWrites, span))
            } else if writes {
                Err(IrError::StorageMismatchedAttribute(StorageOperation::Writes, span))
            } else if reads {
                Ok(())
            } else {
                Err(IrError::StorageUnneededAttribute(StorageOperation::Reads, span))
            }
        },
        Some(StorageOperation::Writes) => {
            if reads && writes {
                Err(IrError::StorageMismatchedAttribute(StorageOperation::ReadsWrites, span))
            } else if reads {
                Err(IrError::StorageMismatchedAttribute(StorageOperation::Reads, span))
            } else if writes {
                Ok(())
            } else {
                Err(IrError::StorageUnneededAttribute(StorageOperation::Writes, span))
            }
        },
        Some(StorageOperation::ReadsWrites) => {
            if reads && writes {
                Ok(())
            } else if writes {
                Err(IrError::StorageUnneededAttribute(StorageOperation::Reads, span))
            } else if reads {
                Err(IrError::StorageUnneededAttribute(StorageOperation::Writes, span))
            } else {
                Err(IrError::StorageUnneededAttribute(StorageOperation::ReadsWrites, span))
            }
        },
    }
}

/// The verdict of storage verification for function `f`: the reconciliation
/// table applied to its declared attribute, observed behaviour and span.
pub open spec fn spec_storage_verdict(ctx: Context, f: FunctionContent) -> Result<(), IrError> {
    spec_reconcile(
        spec_declared_purity(ctx, f),
        spec_function_reads(ctx, f),
        spec_function_writes(ctx, f),
        spec_function_span(ctx, f),
    )
}

/// Scan one inline-assembly body for storage operations; returns the
/// (reads observed, writes observed) pair.
fn asm_observed(ops: &AsmBlockContent) -> (rw: (bool, bool))
    ensures
        rw.0 == spec_asm_reads(ops.body@),
        rw.1 == spec_asm_writes(ops.body@),
{
    let mut reads = false;
    let mut writes = false;
    let mut i: usize = 0;
    while i < ops.body.len()
        invariant
            i <= ops.body.len(),
            reads == exists|k: int| 0 <= k < i && spec_is_read_mnemonic(ops.body[k].name@),
            writes == exists|k: int| 0 <= k < i && spec_is_write_mnemonic(ops.body[k].name@),
        decreases ops.body.len() - i,
    {
        if is_read_mnemonic(&ops.body[i].name) {
            reads = true;
        }
        if is_write_mnemonic(&ops.body[i].name) {
            writes = true;
        }
        i = i + 1;
    }
    (reads, writes)
}

/// Scan one block of `ctx` for storage operations carried by its
/// inline-assembly instructions.
fn block_observed(ctx: &Context, bh: usize) -> (rw: (bool, bool))
    requires
        ctx.wf(),
        bh < ctx.blocks.len(),
    ensures
        rw.0 == spec_block_reads(*ctx, ctx.blocks[bh as int]),
        rw.1 == spec_block_writes(*ctx, ctx.blocks[bh as int]),
{
    proof {
        assert(ctx.wf_block(ctx.blocks[bh as int]));
    }
    let mut reads = false;
    let mut writes = false;
    let mut i: usize = 0;
    let n = ctx.blocks[bh].instructions.len();
    while i < n
        invariant
            ctx.wf(),
            bh < ctx.blocks.len(),
            ctx.wf_block(ctx.blocks[bh as int]),
            n == ctx.blocks[bh as int].instructions.len(),
            i <= n,
            reads == exists|k: int|
                0 <= k < i && spec_instr_reads(
                    *ctx,
                    ctx.instrs[ctx.blocks[bh as int].instructions[k] as int],
                ),
            writes == exists|k: int|
                0 <= k < i && spec_instr_writes(
                    *ctx,
                    ctx.instrs[ctx.blocks[bh as int].instructions[k] as int],
                ),
        decreases n - i,
    {
        let ih = ctx.blocks[bh].instructions[i];
        let ins = ctx.instrs[ih];
        proof {
            assert(ctx.wf_instruction(ctx.instrs[ih as int]));
        }
        match ins {
            Instruction::AsmBlock(a) => {
                let (r, w) = asm_observed(&ctx.asm_blocks[a]);
                if r {
                    reads = true;
                }
                if w {
                    writes = true;
                }
            },
            _ => {},
        }
        i = i + 1;
    }
    (reads, writes)
}

/// Scan the whole body of function `fidx` for storage operations.
fn function_observed(ctx: &Context, fidx: usize) -> (rw: (bool, bool))
    requires
        ctx.wf(),
        fidx < ctx.functions.len(),
    ensures
        rw.0 == spec_function_reads(*ctx, ctx.functions[fidx as int]),
        rw.1 == spec_function_writes(*ctx, ctx.functions[fidx as int]),
{
    proof {
        assert(ctx.wf_function(ctx.functions[fidx as int]));
    }
    let mut reads = false;
    let mut writes = false;
    let mut i: usize = 0;
    let n = ctx.functions[fidx].blocks.len();
    while i < n
        invariant
            ctx.wf(),
            fidx < ctx.functions.len(),
            ctx.wf_function(ctx.functions[fidx as int]),
            n == ctx.functions[fidx as int].blocks.len(),
            i <= n,
            reads == exists|k: int|
                0 <= k < i && spec_block_reads(
                    *ctx,
                    ctx.blocks[ctx.functions[fidx as int].blocks[k] as int],
                ),
            writes == exists|k: int|
                0 <= k < i && spec_block_writes(
                    *ctx,
                    ctx.blocks[ctx.functions[fidx as int].blocks[k] as int],
                ),
        decreases n - i,
    {
        let bh = ctx.functions[fidx].blocks[i];
        let (r, w) = block_observed(ctx, bh);
        if r {
            reads = true;
        }
        if w {
            writes = true;
        }
        i = i + 1;
    }
    (reads, writes)
}

/// Resolve the declared storage attribute of function `fidx`.
fn declared_purity(ctx: &Context, fidx: usize) -> (r: Option<StorageOperation>)
    requires
        ctx.wf(),
        fidx < ctx.functions.len(),
    ensures
        r == spec_declared_purity(*ctx, ctx.functions[fidx as int]),
{
    proof {
        assert(ctx.wf_function(ctx.functions[fidx as int]));
    }
    match ctx.functions[fidx].storage_md_idx {
        Some(idx) => match ctx.metadata[idx] {
            Metadatum::StorageAttribute(op) => Some(op),
            _ => None,
        },
        None => None,
    }
}

/// Resolve the best-effort span of function `fidx`.
fn function_span(ctx: &Context, fidx: usize) -> (r: SourceSpan)
    requires
        ctx.wf(),
        fidx < ctx.functions.len(),
    ensures
        r == spec_function_span(*ctx, ctx.functions[fidx as int]),
{
    proof {
        assert(ctx.wf_function(ctx.functions[fidx as int]));
    }
    match ctx.functions[fidx].span_md_idx {
        Some(idx) => match ctx.metadata[idx] {
            Metadatum::Span(s) => s,
            _ => SourceSpan::unknown(),
        },
        None => SourceSpan::unknown(),
    }
}

/// Apply the reconciliation table to a declared attribute and the two
/// observed direction flags.
pub fn reconcile_storage(
    declared: Option<StorageOperation>,
    reads: bool,
    writes: bool,
    span: SourceSpan,
) -> (r: Result<(), IrError>)
    ensures
        r == spec_reconcile(declared, reads, writes, span),
{
    match declared {
        None => {
            if reads && writes {
                Err(IrError::StorageMissingAttribute(StorageOperation::ReadsWrites, span))
            } else if reads {
                Err(IrError::StorageMissingAttribute(StorageOperation::Reads, span))
            } else if writes {
                Err(IrError::StorageMissingAttribute(StorageOperation::Writes, span))
            } else {
                Ok(())
            }
        },
        Some(StorageOperation::Reads) => {
            if reads && writes {
                Err(IrError::StorageMismatchedAttribute(StorageOperation::ReadsWrites, span))
            } else if writes {
                Err(IrError::StorageMismatchedAttribute(StorageOperation::Writes, span))
            } else if reads {
                Ok(())
            } else {
                Err(IrError::StorageUnneededAttribute(StorageOperation::Reads, span))
            }
        },
        Some(StorageOperation::Writes) => {
            if reads && writes {
                Err(IrError::StorageMismatchedAttribute(StorageOperation::ReadsWrites, span))
            } else if reads {
                Err(IrError::StorageMismatchedAttribute(StorageOperation::Reads, span))
            } else if writes {
                Ok(())
            } else {
                Err(IrError::StorageUnneededAttribute(StorageOperation::Writes, span))
            }
        },
        Some(StorageOperation::ReadsWrites) => {
            if reads && writes {
                Ok(())
            } else if writes {
                Err(IrError::StorageUnneededAttribute(StorageOperation::Reads, span))
            } else if reads {
                Err(IrError::StorageUnneededAttribute(StorageOperation::Writes, span))
            } else {
                Err(IrError::StorageUnneededAttribute(StorageOperation::ReadsWrites, span))
            }
        },
    }
}

/// Verify that the storage behaviour of function `fidx` matches its declared
/// purity attribute: infer the (reads, writes) flags from the
/// inline-assembly operations in its body, then reconcile them against the
/// declared attribute, locating any error at the function's best-effort span.
pub fn verify_storage(ctx: &Context, fidx: usize) -> (r: Result<(), IrError>)
    requires
        ctx.wf(),
        fidx < ctx.functions.len(),
    ensures
        r == spec_storage_verdict(*ctx, ctx.functions[fidx as int]),
{
    let (reads, writes) = function_observed(ctx, fidx);
    let declared = declared_purity(ctx, fidx);
    let span = function_span(ctx, fidx);
    reconcile_storage(declared, reads, writes, span)
}

/// Effect-reconciliation totality: over every combination of a declared
/// attribute (absent, `Reads`, `Writes` or `ReadsWrites`) and the two
/// observed direction flags, the table yields exactly the outcome listed
/// here — success precisely when nothing is declared and nothing observed,
/// when `ReadsWrites` is declared and both directions are observed, or when
/// a single declared direction is exactly the single direction observed.
pub proof fn lemma_reconciliation_total(span: SourceSpan)
    ensures
        spec_reconcile(None, false, false, span) == Ok::<(), IrError>(()),
        spec_reconcile(Some(StorageOperation::ReadsWrites), true, true, span) == Ok::<
            (),
            IrError,
        >(()),
        spec_reconcile(None, true, false, span) == Err::<(), IrError>(
            IrError::StorageMissingAttribute(StorageOperation::Reads, span),
        ),
        spec_reconcile(None, false, true, span) == Err::<(), IrError>(
            IrError::StorageMissingAttribute(StorageOperation::Writes, span),
        ),
        spec_reconcile(None, true, true, span) == Err::<(), IrError>(
            IrError::StorageMissingAttribute(StorageOperation::ReadsWrites, span),
        ),
        spec_reconcile(Some(StorageOperation::Reads), false, true, span) == Err::<(), IrError>(
            IrError::StorageMismatchedAttribute(StorageOperation::Writes, span),
        ),
        spec_reconcile(Some(StorageOperation::Writes), true, false, span) == Err::<(), IrError>(
            IrError::StorageMismatchedAttribute(StorageOperation::Reads, span),
        ),
        spec_reconcile(Some(StorageOperation::Reads), true, true, span) == Err::<(), IrError>(
            IrError::StorageMismatchedAttribute(StorageOperation::ReadsWrites, span),
        ),
        spec_reconcile(Some(StorageOperation::Writes), true, true, span) == Err::<(), IrError>(
            IrError::StorageMismatchedAttribute(StorageOperation::ReadsWrites, span),
        ),
        spec_reconcile(Some(StorageOperation::ReadsWrites), false, true, span) == Err::<
            (),
            IrError,
        >(IrError::StorageUnneededAttribute(StorageOperation::Reads, span)),
        spec_reconcile(Some(StorageOperation::ReadsWrites), true, false, span) == Err::<
            (),
            IrError,
        >(IrError::StorageUnneededAttribute(StorageOperation::Writes, span)),
        spec_reconcile(Some(StorageOperation::Reads), true, false, span) == Ok::<(), IrError>(()),
        spec_reconcile(Some(StorageOperation::Writes), false, true, span) == Ok::<(), IrError>(()),
        spec_reconcile(Some(StorageOperation::Reads), false, false, span) == Err::<(), IrError>(
            IrError::StorageUnneededAttribute(StorageOperation::Reads, span),
        ),
        spec_reconcile(Some(StorageOperation::Writes), false, false, span) == Err::<(), IrError>(
            IrError::StorageUnneededAttribute(StorageOperation::Writes, span),
        ),
        spec_reconcile(Some(StorageOperation::ReadsWrites), false, false, span) == Err::<
            (),
            IrError,
        >(IrError::StorageUnneededAttribute(StorageOperation::ReadsWrites, span)),
{
}

} // verus!
