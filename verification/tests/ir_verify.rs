//! Tests for the block-termination discipline and the top-level pass.

use sway_ir::error::IrError;
use sway_ir::ir::{
    AsmBlockContent, BlockContent, Context, FunctionContent, Instruction, Metadatum, ModuleContent,
};

/// A context with one module holding one function made of the given blocks;
/// the caller fills the instruction arena afterwards.
fn one_function_ctx(blocks: Vec<BlockContent>) -> Context {
    let handles: Vec<usize> = (0..blocks.len()).collect();
    Context {
        modules: vec![ModuleContent { functions: vec![0] }],
        functions: vec![FunctionContent {
            name: "main".to_string(),
            blocks: handles,
            storage_md_idx: None,
            span_md_idx: None,
        }],
        blocks,
        instrs: Vec::new(),
        asm_blocks: Vec::new(),
        metadata: Vec::new(),
    }
}

/// Scenario: one block `[add, return]` with a predecessor; the return is a
/// terminator and last, so the whole pass succeeds.
#[test]
fn block_with_single_trailing_terminator_passes() {
    let ctx = Context {
        modules: vec![ModuleContent { functions: vec![0] }],
        functions: vec![FunctionContent {
            name: "main".to_string(),
            blocks: vec![0, 1],
            storage_md_idx: None,
            span_md_idx: None,
        }],
        blocks: vec![
            BlockContent { label: "entry".to_string(), instructions: vec![0, 1] },
            BlockContent { label: "jumper".to_string(), instructions: vec![2] },
        ],
        instrs: vec![Instruction::BinaryOp, Instruction::Ret, Instruction::Branch(0)],
        asm_blocks: Vec::new(),
        metadata: Vec::new(),
    };
    assert_eq!(ctx.num_predecessors(0, 0), 1);
    assert!(ctx.verify_block(0, 0).is_ok());
    assert!(ctx.verify().is_ok());
}

/// Scenario: one block `[store]` with a predecessor and no terminator; the
/// pass reports exactly one `MissingTerminator` carrying the block's label.
#[test]
fn block_without_terminator_is_reported() {
    let ctx = Context {
        modules: vec![ModuleContent { functions: vec![0] }],
        functions: vec![FunctionContent {
            name: "main".to_string(),
            blocks: vec![0, 1],
            storage_md_idx: None,
            span_md_idx: None,
        }],
        blocks: vec![
            BlockContent { label: "entry".to_string(), instructions: vec![0] },
            BlockContent { label: "jumper".to_string(), instructions: vec![1] },
        ],
        instrs: vec![Instruction::Store, Instruction::Branch(0)],
        asm_blocks: Vec::new(),
        metadata: Vec::new(),
    };
    assert_eq!(ctx.num_predecessors(0, 0), 1);
    assert_eq!(
        ctx.verify(),
        Err(vec![IrError::MissingTerminator("entry".to_string())])
    );
}

/// Scenario: an unreferenced block holding a single non-terminator
/// placeholder passes by the orphan exemption.
#[test]
fn orphan_placeholder_block_is_exempt() {
    let ctx = one_function_ctx(vec![BlockContent {
        label: "leftover".to_string(),
        instructions: vec![0],
    }]);
    let ctx = Context { instrs: vec![Instruction::Phi], ..ctx };
    assert_eq!(ctx.num_predecessors(0, 0), 0);
    assert!(ctx.verify_block(0, 0).is_ok());
    assert!(ctx.verify().is_ok());
}

/// An empty block is exempt too while unreferenced: the policy is "at most
/// one instruction and zero predecessors".
#[test]
fn orphan_empty_block_is_exempt() {
    let ctx = one_function_ctx(vec![BlockContent {
        label: "empty".to_string(),
        instructions: vec![],
    }]);
    assert!(ctx.verify().is_ok());
}

/// An empty block that has a predecessor is live, and an empty live block
/// cannot end in a terminator.
#[test]
fn referenced_empty_block_misses_terminator() {
    let ctx = Context {
        modules: vec![ModuleContent { functions: vec![0] }],
        functions: vec![FunctionContent {
            name: "main".to_string(),
            blocks: vec![0, 1],
            storage_md_idx: None,
            span_md_idx: None,
        }],
        blocks: vec![
            BlockContent { label: "empty".to_string(), instructions: vec![] },
            BlockContent { label: "jumper".to_string(), instructions: vec![0] },
        ],
        instrs: vec![Instruction::Branch(0)],
        asm_blocks: Vec::new(),
        metadata: Vec::new(),
    };
    assert_eq!(
        ctx.verify(),
        Err(vec![IrError::MissingTerminator("empty".to_string())])
    );
}

/// A block that ends in a terminator but holds two of them is misplaced.
#[test]
fn two_terminators_are_misplaced() {
    let ctx = one_function_ctx(vec![BlockContent {
        label: "entry".to_string(),
        instructions: vec![0, 1],
    }]);
    let ctx = Context { instrs: vec![Instruction::Ret, Instruction::Ret], ..ctx };
    assert_eq!(
        ctx.verify(),
        Err(vec![IrError::MisplacedTerminator("entry".to_string())])
    );
}

/// A terminator in the middle, none at the end: the missing final terminator
/// is what gets reported.
#[test]
fn early_terminator_without_final_one_is_missing() {
    let ctx = one_function_ctx(vec![BlockContent {
        label: "entry".to_string(),
        instructions: vec![0, 1],
    }]);
    let ctx = Context { instrs: vec![Instruction::Ret, Instruction::BinaryOp], ..ctx };
    assert_eq!(
        ctx.verify(),
        Err(vec![IrError::MissingTerminator("entry".to_string())])
    );
}

/// A conditional branch makes both of its targets predecessors.
#[test]
fn conditional_branch_counts_as_predecessor() {
    let ctx = Context {
        modules: vec![ModuleContent { functions: vec![0] }],
        functions: vec![FunctionContent {
            name: "main".to_string(),
            blocks: vec![0, 1, 2],
            storage_md_idx: None,
            span_md_idx: None,
        }],
        blocks: vec![
            BlockContent { label: "entry".to_string(), instructions: vec![0] },
            BlockContent { label: "then_part".to_string(), instructions: vec![1] },
            BlockContent { label: "else_part".to_string(), instructions: vec![2] },
        ],
        instrs: vec![Instruction::ConditionalBranch(1, 2), Instruction::Ret, Instruction::Ret],
        asm_blocks: Vec::new(),
        metadata: Vec::new(),
    };
    assert_eq!(ctx.num_predecessors(0, 1), 1);
    assert_eq!(ctx.num_predecessors(0, 2), 1);
    assert_eq!(ctx.num_predecessors(0, 0), 0);
    assert!(ctx.verify().is_ok());
}

/// Aggregation: three functions, each with exactly one independent defect,
/// yield exactly three errors from one invocation, in visit order.
#[test]
fn every_defect_is_collected() {
    let ctx = Context {
        modules: vec![ModuleContent { functions: vec![0, 1, 2] }],
        functions: vec![
            FunctionContent {
                name: "first".to_string(),
                blocks: vec![0, 1],
                storage_md_idx: None,
                span_md_idx: None,
            },
            FunctionContent {
                name: "second".to_string(),
                blocks: vec![2],
                storage_md_idx: None,
                span_md_idx: None,
            },
            FunctionContent {
                name: "third".to_string(),
                blocks: vec![3],
                storage_md_idx: Some(0),
                span_md_idx: None,
            },
        ],
        blocks: vec![
            // first: live block without a terminator
            BlockContent { label: "entry".to_string(), instructions: vec![0] },
            BlockContent { label: "jumper".to_string(), instructions: vec![1] },
            // second: two terminators
            BlockContent { label: "entry".to_string(), instructions: vec![2, 3] },
            // third: fine structurally, but declares Reads and reads nothing
            BlockContent { label: "entry".to_string(), instructions: vec![4] },
        ],
        instrs: vec![
            Instruction::Store,
            Instruction::Branch(0),
            Instruction::Ret,
            Instruction::Ret,
            Instruction::Ret,
        ],
        asm_blocks: Vec::new(),
        metadata: vec![Metadatum::StorageAttribute(sway_ir::error::StorageOperation::Reads)],
    };
    let errs = ctx.verify().unwrap_err();
    assert_eq!(errs.len(), 3);
    assert_eq!(errs[0], IrError::MissingTerminator("entry".to_string()));
    assert_eq!(errs[1], IrError::MisplacedTerminator("entry".to_string()));
    assert_eq!(
        errs[2],
        IrError::StorageUnneededAttribute(
            sway_ir::error::StorageOperation::Reads,
            sway_ir::error::SourceSpan::unknown(),
        )
    );
}

/// Non-mutation and idempotence: a successful pass hands back the store it
/// was given, unchanged, and verifying that store again succeeds again.
#[test]
fn successful_pass_returns_store_unchanged() {
    let ctx = Context {
        modules: vec![ModuleContent { functions: vec![0] }],
        functions: vec![FunctionContent {
            name: "main".to_string(),
            blocks: vec![0],
            storage_md_idx: None,
            span_md_idx: None,
        }],
        blocks: vec![BlockContent { label: "entry".to_string(), instructions: vec![0, 1] }],
        instrs: vec![Instruction::AsmBlock(0), Instruction::Ret],
        asm_blocks: vec![AsmBlockContent { body: Vec::new() }],
        metadata: Vec::new(),
    };
    let before = ctx.clone();
    let returned = ctx.verify().unwrap();
    assert_eq!(returned, before);
    let returned_again = returned.verify().unwrap();
    assert_eq!(returned_again, before);
}

/// A context with no modules at all trivially verifies.
#[test]
fn empty_store_verifies() {
    let ctx = Context {
        modules: Vec::new(),
        functions: Vec::new(),
        blocks: Vec::new(),
        instrs: Vec::new(),
        asm_blocks: Vec::new(),
        metadata: Vec::new(),
    };
    assert!(ctx.verify().is_ok());
}
