//! Tests for storage-purity inference and reconciliation.

use sway_ir::error::{IrError, SourceSpan, StorageOperation};
use sway_ir::error::StorageOperation::{Reads, ReadsWrites, Writes};
use sway_ir::ir::{
    AsmBlockContent, AsmOp, BlockContent, Context, FunctionContent, Instruction, Metadatum,
    ModuleContent,
};
use sway_ir::storage::{is_read_mnemonic, is_write_mnemonic, reconcile_storage, verify_storage};

fn op(name: &str) -> AsmOp {
    AsmOp { name: name.to_string(), args: vec!["r1".to_string(), "r2".to_string()] }
}

/// One function whose single block holds one inline-assembly instruction
/// with the given operations, then a return; `declared` becomes the
/// function's storage attribute.
fn asm_ctx(ops: Vec<AsmOp>, declared: Option<StorageOperation>) -> Context {
    let (metadata, storage_md_idx) = match declared {
        Some(d) => (vec![Metadatum::StorageAttribute(d)], Some(0)),
        None => (Vec::new(), None),
    };
    Context {
        modules: vec![ModuleContent { functions: vec![0] }],
        functions: vec![FunctionContent {
            name: "main".to_string(),
            blocks: vec![0],
            storage_md_idx,
            span_md_idx: None,
        }],
        blocks: vec![BlockContent { label: "entry".to_string(), instructions: vec![0, 1] }],
        instrs: vec![Instruction::AsmBlock(0), Instruction::Ret],
        asm_blocks: vec![AsmBlockContent { body: ops }],
        metadata,
    }
}

/// Scenario: no declared attribute, but the body writes storage through an
/// inline-assembly operation; the missing attribute names `Writes`.
#[test]
fn undeclared_write_needs_writes_attribute() {
    let ctx = asm_ctx(vec![op("sww")], None);
    assert_eq!(
        verify_storage(&ctx, 0),
        Err(IrError::StorageMissingAttribute(StorageOperation::Writes, SourceSpan::unknown()))
    );
    assert_eq!(
        ctx.verify(),
        Err(vec![IrError::StorageMissingAttribute(
            StorageOperation::Writes,
            SourceSpan::unknown()
        )])
    );
}

/// Scenario: declared `Reads`, but the body both reads and writes; the
/// mismatch names the attribute that would be correct, `ReadsWrites`.
#[test]
fn declared_reads_with_both_directions_mismatches() {
    let ctx = asm_ctx(vec![op("srw"), op("sww")], Some(StorageOperation::Reads));
    assert_eq!(
        verify_storage(&ctx, 0),
        Err(IrError::StorageMismatchedAttribute(
            StorageOperation::ReadsWrites,
            SourceSpan::unknown()
        ))
    );
}

/// Scenario: declared `ReadsWrites`, but the body only reads; the write half
/// of the attribute is unneeded.
#[test]
fn declared_readswrites_with_only_reads_is_excessive() {
    let ctx = asm_ctx(vec![op("srw")], Some(StorageOperation::ReadsWrites));
    assert_eq!(
        verify_storage(&ctx, 0),
        Err(IrError::StorageUnneededAttribute(StorageOperation::Writes, SourceSpan::unknown()))
    );
}

/// A correctly declared single direction passes, for both directions and
/// both mnemonics of each.
#[test]
fn matching_single_directions_pass() {
    for read_op in ["srw", "srwq"] {
        let ctx = asm_ctx(vec![op(read_op)], Some(StorageOperation::Reads));
        assert_eq!(verify_storage(&ctx, 0), Ok(()));
    }
    for write_op in ["sww", "swwq"] {
        let ctx = asm_ctx(vec![op(write_op)], Some(StorageOperation::Writes));
        assert_eq!(verify_storage(&ctx, 0), Ok(()));
    }
}

/// A pure function with no attribute passes, even with inline assembly that
/// touches no storage.
#[test]
fn pure_undeclared_function_passes() {
    let ctx = asm_ctx(vec![op("add"), op("lw"), op("move")], None);
    assert_eq!(verify_storage(&ctx, 0), Ok(()));
    assert!(ctx.verify().is_ok());
}

/// `ReadsWrites` with both directions exercised passes.
#[test]
fn declared_readswrites_with_both_directions_passes() {
    let ctx = asm_ctx(vec![op("srwq"), op("swwq")], Some(StorageOperation::ReadsWrites));
    assert_eq!(verify_storage(&ctx, 0), Ok(()));
}

/// The whole reconciliation table, combination by combination.
#[test]
fn reconciliation_table_is_total() {
    let span = SourceSpan { start: 3, end: 17 };
    let missing = |o| Err(IrError::StorageMissingAttribute(o, span));
    let mismatched = |o| Err(IrError::StorageMismatchedAttribute(o, span));
    let unneeded = |o| Err(IrError::StorageUnneededAttribute(o, span));

    assert_eq!(reconcile_storage(None, false, false, span), Ok(()));
    assert_eq!(reconcile_storage(None, true, false, span), missing(Reads));
    assert_eq!(reconcile_storage(None, false, true, span), missing(Writes));
    assert_eq!(reconcile_storage(None, true, true, span), missing(ReadsWrites));

    assert_eq!(reconcile_storage(Some(Reads), false, false, span), unneeded(Reads));
    assert_eq!(reconcile_storage(Some(Reads), true, false, span), Ok(()));
    assert_eq!(reconcile_storage(Some(Reads), false, true, span), mismatched(Writes));
    assert_eq!(reconcile_storage(Some(Reads), true, true, span), mismatched(ReadsWrites));

    assert_eq!(reconcile_storage(Some(Writes), false, false, span), unneeded(Writes));
    assert_eq!(reconcile_storage(Some(Writes), true, false, span), mismatched(Reads));
    assert_eq!(reconcile_storage(Some(Writes), false, true, span), Ok(()));
    assert_eq!(reconcile_storage(Some(Writes), true, true, span), mismatched(ReadsWrites));

    assert_eq!(reconcile_storage(Some(ReadsWrites), false, false, span), unneeded(ReadsWrites));
    assert_eq!(reconcile_storage(Some(ReadsWrites), true, false, span), unneeded(Writes));
    assert_eq!(reconcile_storage(Some(ReadsWrites), false, true, span), unneeded(Reads));
    assert_eq!(reconcile_storage(Some(ReadsWrites), true, true, span), Ok(()));
}

/// Classification is strictly by mnemonic: the four storage opcodes are
/// recognised, near-misses are not.
#[test]
fn mnemonics_classify_exactly() {
    assert!(is_read_mnemonic(&"srw".to_string()));
    assert!(is_read_mnemonic(&"srwq".to_string()));
    assert!(!is_read_mnemonic(&"sww".to_string()));
    assert!(!is_read_mnemonic(&"srwx".to_string()));
    assert!(!is_read_mnemonic(&"sr".to_string()));
    assert!(!is_read_mnemonic(&"".to_string()));
    assert!(is_write_mnemonic(&"sww".to_string()));
    assert!(is_write_mnemonic(&"swwq".to_string()));
    assert!(!is_write_mnemonic(&"srw".to_string()));
    assert!(!is_write_mnemonic(&"swwqq".to_string()));
}

/// A storage error is located at the function's span record when one
/// resolves.
#[test]
fn storage_error_carries_function_span() {
    let mut ctx = asm_ctx(vec![op("srw")], None);
    ctx.metadata.push(Metadatum::Span(SourceSpan { start: 42, end: 99 }));
    ctx.functions[0].span_md_idx = Some(0);
    assert_eq!(
        verify_storage(&ctx, 0),
        Err(IrError::StorageMissingAttribute(
            StorageOperation::Reads,
            SourceSpan { start: 42, end: 99 }
        ))
    );
}

/// A storage-attribute handle that resolves to a non-attribute payload
/// counts as no declared attribute.
#[test]
fn non_attribute_metadata_means_undeclared() {
    let mut ctx = asm_ctx(vec![op("srw")], None);
    ctx.metadata.push(Metadatum::Span(SourceSpan { start: 1, end: 2 }));
    ctx.functions[0].storage_md_idx = Some(0);
    assert_eq!(
        verify_storage(&ctx, 0),
        Err(IrError::StorageMissingAttribute(StorageOperation::Reads, SourceSpan::unknown()))
    );
}

/// The inference is a whole-function existence check: operations found in
/// different blocks and different inline-assembly instructions combine.
#[test]
fn directions_combine_across_blocks() {
    let ctx = Context {
        modules: vec![ModuleContent { functions: vec![0] }],
        functions: vec![FunctionContent {
            name: "main".to_string(),
            blocks: vec![0, 1],
            storage_md_idx: None,
            span_md_idx: None,
        }],
        blocks: vec![
            BlockContent { label: "entry".to_string(), instructions: vec![0, 1] },
            BlockContent { label: "next".to_string(), instructions: vec![2, 3] },
        ],
        instrs: vec![
            Instruction::AsmBlock(0),
            Instruction::Branch(1),
            Instruction::AsmBlock(1),
            Instruction::Ret,
        ],
        asm_blocks: vec![
            AsmBlockContent { body: vec![op("srw")] },
            AsmBlockContent { body: vec![op("sww")] },
        ],
        metadata: Vec::new(),
    };
    assert_eq!(
        verify_storage(&ctx, 0),
        Err(IrError::StorageMissingAttribute(
            StorageOperation::ReadsWrites,
            SourceSpan::unknown()
        ))
    );
}
