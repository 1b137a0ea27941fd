//! The verification pass over a whole [`Context`]: termination discipline of
//! every block, then storage-purity reconciliation of every function, with
//! every independent error collected rather than stopping at the first.

use vstd::prelude::*;

use crate::error::IrError;
use crate::ir::{Context, FunctionContent, ModuleContent};
use crate::storage::{spec_storage_verdict, verify_storage};

verus! {

/// Whether some instruction of `instrs` (a block's instruction handles,
/// resolved through `ctx`) branches to the block with handle `target`.
pub open spec fn spec_block_targets(ctx: Context, instrs: Seq<usize>, target: int) -> bool {
    exists|k: int| 0 <= k < instrs.len() && ctx.instrs[instrs[k] as int].spec_targets(target)
}

/// The number of predecessors of block `target` among the first `k` blocks
/// of `f`: blocks holding a branch or conditional branch whose target is
/// `target`.
pub open spec fn spec_pred_count_upto(ctx: Context, f: FunctionContent, target: int, k: int) -> int
    decreases k,
{
    if k <= 0 {
        0
    } else {
        spec_pred_count_upto(ctx, f, target, k - 1) + if spec_block_targets(
            ctx,
            ctx.blocks[f.blocks[k - 1] as int].instructions@,
            target,
        ) {
            1int
        } else {
            0int
        }
    }
}

/// The predecessor count of block `target` within function `f`.
pub open spec fn spec_pred_count(ctx: Context, f: FunctionContent, target: int) -> int {
    spec_pred_count_upto(ctx, f, target, f.blocks.len() as int)
}

/// The number of terminator instructions among the first `k` of a block's
/// instruction handles.
pub open spec fn spec_term_count_upto(ctx: Context, instrs: Seq<usize>, k: int) -> int
    decreases k,
{
    if k <= 0 {
        0
    } else {
        spec_term_count_upto(ctx, instrs, k - 1) + if ctx.instrs[instrs[k
            - 1] as int].spec_is_terminator() {
            1int
        } else {
            0int
        }
    }
}

/// The number of terminator instructions in a block's instruction sequence.
pub open spec fn spec_term_count(ctx: Context, instrs: Seq<usize>) -> int {
    spec_term_count_upto(ctx, instrs, instrs.len() as int)
}

/// Whether a block's instruction sequence is non-empty and ends in a
/// terminator.
pub open spec fn spec_last_is_terminator(ctx: Context, instrs: Seq<usize>) -> bool {
    instrs.len() > 0 && ctx.instrs[instrs.last() as int].spec_is_terminator()
}

/// The termination-discipline verdict for the block with handle `bh` inside
/// function `f`.  A block with at most one instruction and no predecessors
/// is an unreferenced artifact of earlier lowering and passes untouched;
/// otherwise the block must end in a terminator and contain exactly one.
pub open spec fn spec_block_verdict(ctx: Context, f: FunctionContent, bh: int) -> Result<
    (),
    IrError,
> {
    let blk = ctx.blocks[bh];
    if blk.instructions.len() <= 1 && spec_pred_count(ctx, f, bh) == 0 {
        Ok(())
    } else if !spec_last_is_terminator(ctx, blk.instructions@) {
        Err(IrError::MissingTerminator(blk.label))
    } else if spec_term_count(ctx, blk.instructions@) != 1 {
        Err(IrError::MisplacedTerminator(blk.label))
    } else {
        Ok(())
    }
}

/// The errors one check contributes to the collected list: none on success,
/// its single error on failure.
pub open spec fn err_seq(r: Result<(), IrError>) -> Seq<IrError> {
    match r {
        Ok(_) => Seq::empty(),
        Err(e) => seq![e],
    }
}

/// The structural errors of the first `k` blocks of `f`, in block order.
pub open spec fn spec_block_errors_upto(ctx: Context, f: FunctionContent, k: int) -> Seq<IrError>
    decreases k,
{
    if k <= 0 {
        Seq::empty()
    } else {
        spec_block_errors_upto(ctx, f, k - 1) + err_seq(
            spec_block_verdict(ctx, f, f.blocks[k - 1] as int),
        )
    }
}

/// Every error function `f` contributes: its blocks' structural errors in
/// block order, then its storage-purity error, if any.
pub open spec fn spec_function_errors(ctx: Context, f: FunctionContent) -> Seq<IrError> {
    spec_block_errors_upto(ctx, f, f.blocks.len() as int) + err_seq(spec_storage_verdict(ctx, f))
}

/// The errors of the first `k` functions of module `m`, in function order.
pub open spec fn spec_module_errors_upto(ctx: Context, m: ModuleContent, k: int) -> Seq<IrError>
    decreases k,
{
    if k <= 0 {
        Seq::empty()
    } else {
        spec_module_errors_upto(ctx, m, k - 1) + spec_function_errors(
            ctx,
            ctx.functions[m.functions[k - 1] as int],
        )
    }
}

/// Every error module `m` contributes, in function order.
pub open spec fn spec_module_errors(ctx: Context, m: ModuleContent) -> Seq<IrError> {
    spec_module_errors_upto(ctx, m, m.functions.len() as int)
}

/// The errors of the first `k` modules of `ctx`, in module order.
pub open spec fn spec_errors_upto(ctx: Context, k: int) -> Seq<IrError>
    decreases k,
{
    if k <= 0 {
        Seq::empty()
    } else {
        spec_errors_upto(ctx, k - 1) + spec_module_errors(ctx, ctx.modules[k - 1])
    }
}

/// Every error the verification pass collects over `ctx`, in visit order:
/// module by module, function by function, blocks first and storage last.
pub open spec fn spec_errors(ctx: Context) -> Seq<IrError> {
    spec_errors_upto(ctx, ctx.modules.len() as int)
}

/// Termination discipline: for any block with more than one instruction or
/// at least one predecessor, verification succeeds exactly when its final
/// instruction is a terminator and it contains exactly one terminator.
pub proof fn lemma_block_termination(ctx: Context, f: FunctionContent, bh: int)
    requires
        0 <= bh < ctx.blocks.len(),
        ctx.blocks[bh].instructions.len() > 1 || spec_pred_count(ctx, f, bh) > 0,
    ensures
        spec_block_verdict(ctx, f, bh) == Ok::<(), IrError>(()) <==> (spec_last_is_terminator(
            ctx,
            ctx.blocks[bh].instructions@,
        ) && spec_term_count(ctx, ctx.blocks[bh].instructions@) == 1),
{
}

/// Orphan exemption: a block with at most one instruction and zero
/// predecessors is a harmless unreferenced artifact of earlier lowering and
/// passes verification regardless of what that instruction is.
pub proof fn lemma_orphan_exemption(ctx: Context, f: FunctionContent, bh: int)
    requires
        0 <= bh < ctx.blocks.len(),
        ctx.blocks[bh].instructions.len() <= 1,
        spec_pred_count(ctx, f, bh) == 0,
    ensures
        spec_block_verdict(ctx, f, bh) == Ok::<(), IrError>(()),
{
}

/// The predecessor count over the first `k` blocks is never negative, and it
/// is zero exactly when none of those blocks branches to `target`.
pub proof fn lemma_pred_count_upto_zero(ctx: Context, f: FunctionContent, target: int, k: int)
    requires
        0 <= k <= f.blocks.len(),
    ensures
        spec_pred_count_upto(ctx, f, target, k) >= 0,
        (spec_pred_count_upto(ctx, f, target, k) == 0) <==> (forall|j: int|
            0 <= j < k ==> !(#[trigger] spec_block_targets(
                ctx,
                ctx.blocks[f.blocks[j] as int].instructions@,
                target,
            ))),
    decreases k,
{
    if k > 0 {
        lemma_pred_count_upto_zero(ctx, f, target, k - 1);
    }
}

/// A block has zero predecessors exactly when it is unreferenced: no block
/// of the function holds a branch or conditional branch that targets it.
pub proof fn lemma_unreferenced_block(ctx: Context, f: FunctionContent, target: int)
    ensures
        (spec_pred_count(ctx, f, target) == 0) <==> (forall|j: int|
            0 <= j < f.blocks.len() ==> !(#[trigger] spec_block_targets(
                ctx,
                ctx.blocks[f.blocks[j] as int].instructions@,
                target,
            ))),
{
    lemma_pred_count_upto_zero(ctx, f, target, f.blocks.len() as int);
}

/// Error independence within one module: when each of the first `k`
/// functions of `m` contributes exactly one error, the collected list over
/// those functions has length `k`.
pub proof fn lemma_module_aggregation(ctx: Context, m: ModuleContent, k: int)
    requires
        0 <= k <= m.functions.len(),
        forall|j: int|
            0 <= j < k ==> spec_function_errors(
                ctx,
                ctx.functions[m.functions[j] as int],
            ).len() == 1,
    ensures
        spec_module_errors_upto(ctx, m, k).len() == k,
    decreases k,
{
    if k > 0 {
        lemma_module_aggregation(ctx, m, k - 1);
    }
}

/// Aggregation: one invocation of the pass reports every defect.  In a store
/// of one module whose functions each contribute exactly one error, the
/// collected error list has exactly one entry per function — never just the
/// first error, never none.
pub proof fn lemma_aggregation(ctx: Context)
    requires
        ctx.modules.len() == 1,
        forall|j: int|
            0 <= j < ctx.modules[0].functions.len() ==> spec_function_errors(
                ctx,
                ctx.functions[ctx.modules[0].functions[j] as int],
            ).len() == 1,
    ensures
        spec_errors(ctx).len() == ctx.modules[0].functions.len(),
{
    lemma_module_aggregation(ctx, ctx.modules[0], ctx.modules[0].functions.len() as int);
    assert(spec_errors(ctx) == spec_errors_upto(ctx, 0) + spec_module_errors(ctx, ctx.modules[0]));
    assert(spec_errors_upto(ctx, 0) == Seq::<IrError>::empty());
}

/// The structural errors of the first `k` blocks of `f` are none exactly
/// when each of those blocks passes the termination discipline.
pub proof fn lemma_block_errors_empty(ctx: Context, f: FunctionContent, k: int)
    requires
        0 <= k <= f.blocks.len(),
    ensures
        (spec_block_errors_upto(ctx, f, k).len() == 0) <==> (forall|j: int|
            0 <= j < k ==> (#[trigger] spec_block_verdict(ctx, f, f.blocks[j] as int)) is Ok),
    decreases k,
{
    if k > 0 {
        lemma_block_errors_empty(ctx, f, k - 1);
    }
}

/// A function contributes no errors exactly when each of its blocks passes
/// the termination discipline and its storage behaviour reconciles with its
/// declared attribute.
pub proof fn lemma_function_errors_empty(ctx: Context, f: FunctionContent)
    ensures
        (spec_function_errors(ctx, f).len() == 0) <==> ((forall|j: int|
            0 <= j < f.blocks.len() ==> (#[trigger] spec_block_verdict(
                ctx,
                f,
                f.blocks[j] as int,
            )) is Ok) && spec_storage_verdict(ctx, f) is Ok),
{
    lemma_block_errors_empty(ctx, f, f.blocks.len() as int);
}

/// The errors of the first `k` functions of `m` are none exactly when each
/// of those functions contributes none.
pub proof fn lemma_module_errors_empty(ctx: Context, m: ModuleContent, k: int)
    requires
        0 <= k <= m.functions.len(),
    ensures
        (spec_module_errors_upto(ctx, m, k).len() == 0) <==> (forall|j: int|
            0 <= j < k ==> (#[trigger] spec_function_errors(
                ctx,
                ctx.functions[m.functions[j] as int],
            )).len() == 0),
    decreases k,
{
    if k > 0 {
        lemma_module_errors_empty(ctx, m, k - 1);
    }
}

/// The errors of the first `k` modules of `ctx` are none exactly when every
/// function of each of those modules contributes none.
pub proof fn lemma_errors_upto_empty(ctx: Context, k: int)
    requires
        0 <= k <= ctx.modules.len(),
    ensures
        (spec_errors_upto(ctx, k).len() == 0) <==> (forall|i: int|
            0 <= i < k ==> (#[trigger] spec_module_errors(ctx, ctx.modules[i])).len() == 0),
    decreases k,
{
    if k > 0 {
        lemma_errors_upto_empty(ctx, k - 1);
        lemma_module_errors_empty(ctx, ctx.modules[k - 1], ctx.modules[k - 1].functions.len() as int);
    }
}

/// The pass succeeds exactly when no defect exists anywhere in the store:
/// its collected list is empty precisely when every function of every module
/// contributes no error at all.
pub proof fn lemma_success_iff_no_defect(ctx: Context)
    ensures
        (spec_errors(ctx).len() == 0) <==> (forall|i: int, j: int|
            0 <= i < ctx.modules.len() && 0 <= j < ctx.modules[i].functions.len()
                ==> (#[trigger] spec_function_errors(
                ctx,
                ctx.functions[ctx.modules[i].functions[j] as int],
            )).len() == 0),
{
    lemma_errors_upto_empty(ctx, ctx.modules.len() as int);
    if (forall|i: int, j: int|
        0 <= i < ctx.modules.len() && 0 <= j < ctx.modules[i].functions.len() ==> (
        #[trigger] spec_function_errors(
            ctx,
            ctx.functions[ctx.modules[i].functions[j] as int],
        )).len() == 0) {
        assert forall|i: int| 0 <= i < ctx.modules.len() implies (#[trigger] spec_module_errors(
            ctx,
            ctx.modules[i],
        )).len() == 0 by {
            lemma_module_errors_empty(ctx, ctx.modules[i], ctx.modules[i].functions.len() as int);
        }
        assert(spec_errors(ctx).len() == 0);
    } else {
        let (i, j) = choose|i: int, j: int|
            0 <= i < ctx.modules.len() && 0 <= j < ctx.modules[i].functions.len() && (
            #[trigger] spec_function_errors(
                ctx,
                ctx.functions[ctx.modules[i].functions[j] as int],
            )).len() != 0;
        lemma_module_errors_empty(ctx, ctx.modules[i], ctx.modules[i].functions.len() as int);
        assert(spec_module_errors(ctx, ctx.modules[i]).len() != 0);
        assert(spec_errors(ctx).len() != 0);
    }
}

/// Non-mutation and idempotence: [`Context::verify`] promises that on
/// success the returned store is the very input (`c == self`), so the
/// success condition — an empty collected error list — carries over to the
/// returned store and a rerun of the pass on it succeeds again.
pub proof fn lemma_verify_idempotent(ctx: Context, returned: Context)
    requires
        returned == ctx,
        spec_errors(ctx).len() == 0,
    ensures
        spec_errors(returned).len() == 0,
{
}

impl Context {
    /// Count the predecessors of the block with handle `target` within the
    /// function with handle `fidx`.  The count is not cached anywhere: it is
    /// recomputed from scratch by scanning every block of the function for
    /// branches that target `target`, which is sound because the IR is never
    /// mutated during verification.
    pub fn num_predecessors(&self, fidx: usize, target: usize) -> (r: usize)
        requires
            self.wf(),
            fidx < self.functions.len(),
        ensures
            r == spec_pred_count(*self, self.functions[fidx as int], target as int),
    {
        proof {
            assert(self.wf_function(self.functions[fidx as int]));
        }
        let n = self.functions[fidx].blocks.len();
        let mut count: usize = 0;
        let mut i: usize = 0;
        while i < n
            invariant
                self.wf(),
                fidx < self.functions.len(),
                self.wf_function(self.functions[fidx as int]),
                n == self.functions[fidx as int].blocks.len(),
                i <= n,
                count <= i,
                count == spec_pred_count_upto(
                    *self,
                    self.functions[fidx as int],
                    target as int,
                    i as int,
                ),
            decreases n - i,
        {
            let bh = self.functions[fidx].blocks[i];
            if self.block_has_branch_to(bh, target) {
                count = count + 1;
            }
            i = i + 1;
        }
        count
    }

    /// Whether any instruction of the block with handle `bh` branches to the
    /// block with handle `target`.
    fn block_has_branch_to(&self, bh: usize, target: usize) -> (r: bool)
        requires
            self.wf(),
            bh < self.blocks.len(),
        ensures
            r == spec_block_targets(*self, self.blocks[bh as int].instructions@, target as int),
    {
        proof {
            assert(self.wf_block(self.blocks[bh as int]));
        }
        let n = self.blocks[bh].instructions.len();
        let mut i: usize = 0;
        while i < n
            invariant
                self.wf(),
                bh < self.blocks.len(),
                self.wf_block(self.blocks[bh as int]),
                n == self.blocks[bh as int].instructions.len(),
                i <= n,
                forall|k: int|
                    0 <= k < i ==> !self.instrs[self.blocks[bh as int].instructions[k] as int].spec_targets(
                        target as int,
                    ),
            decreases n - i,
        {
            let ih = self.blocks[bh].instructions[i];
            if self.instrs[ih].targets(target) {
                proof {
                    assert(self.instrs[self.blocks[bh as int].instructions[i as int] as int].spec_targets(
                        target as int,
                    ));
                }
                return true;
            }
            i = i + 1;
        }
        false
    }

    /// Check the termination discipline of the block with handle `bh` inside
    /// the function with handle `fidx`.  A block with at most one instruction
    /// and zero predecessors is a harmless unreferenced artifact of earlier
    /// lowering and passes unconditionally; any other block must end in a
    /// terminator (else `MissingTerminator`) and contain exactly one
    /// terminator (else `MisplacedTerminator`).
    pub fn verify_block(&self, fidx: usize, bh: usize) -> (r: Result<(), IrError>)
        requires
            self.wf(),
            fidx < self.functions.len(),
            bh < self.blocks.len(),
        ensures
            r == spec_block_verdict(*self, self.functions[fidx as int], bh as int),
    {
        proof {
            assert(self.wf_block(self.blocks[bh as int]));
        }
        let n = self.blocks[bh].instructions.len();
        if n <= 1 && self.num_predecessors(fidx, bh) == 0 {
            return Ok(());
        }
        let mut last_is_term = false;
        let mut num_terms: usize = 0;
        let mut i: usize = 0;
        while i < n
            invariant
                self.wf(),
                bh < self.blocks.len(),
                self.wf_block(self.blocks[bh as int]),
                n == self.blocks[bh as int].instructions.len(),
                i <= n,
                num_terms <= i,
                num_terms == spec_term_count_upto(
                    *self,
                    self.blocks[bh as int].instructions@,
                    i as int,
                ),
                i == 0 ==> !last_is_term,
                i > 0 ==> last_is_term == self.instrs[self.blocks[bh as int].instructions[i
                    - 1] as int].spec_is_terminator(),
            decreases n - i,
        {
            let ih = self.blocks[bh].instructions[i];
            if self.instrs[ih].is_terminator() {
                last_is_term = true;
                num_terms = num_terms + 1;
            } else {
                last_is_term = false;
            }
            i = i + 1;
        }
        if !last_is_term {
            Err(IrError::MissingTerminator(self.blocks[bh].label.clone()))
        } else if num_terms != 1 {
            Err(IrError::MisplacedTerminator(self.blocks[bh].label.clone()))
        } else {
            Ok(())
        }
    }

    /// Verify that this whole Context is consistent: every live block obeys
    /// the termination discipline and every function's storage behaviour
    /// matches its declared purity attribute.
    ///
    /// The pass consumes the Context and hands the very same store back on
    /// success; on failure it is consumed into the full list of independent
    /// errors, collected module by module, function by function, blocks
    /// first and storage last, never short-circuiting on the first error.
    pub fn verify(self) -> (r: Result<Context, Vec<IrError>>)
        requires
            self.wf(),
        ensures
            match r {
                Ok(c) => c == self && spec_errors(self).len() == 0,
                Err(errs) => errs@ == spec_errors(self) && errs@.len() > 0,
            },
    {
        let mut errors: Vec<IrError> = Vec::new();
        let nmods = self.modules.len();
        let mut mi: usize = 0;
        while mi < nmods
            invariant
                self.wf(),
                nmods == self.modules.len(),
                mi <= nmods,
                errors@ == spec_errors_upto(self, mi as int),
            decreases nmods - mi,
        {
            proof {
                assert(self.wf_module(self.modules[mi as int]));
            }
            let nfuncs = self.modules[mi].functions.len();
            let mut fj: usize = 0;
            while fj < nfuncs
                invariant
                    self.wf(),
                    mi < self.modules.len(),
                    self.wf_module(self.modules[mi as int]),
                    nfuncs == self.modules[mi as int].functions.len(),
                    fj <= nfuncs,
                    errors@ == spec_errors_upto(self, mi as int) + spec_module_errors_upto(
                        self,
                        self.modules[mi as int],
                        fj as int,
                    ),
                decreases nfuncs - fj,
            {
                let fh = self.modules[mi].functions[fj];
                proof {
                    assert(self.wf_function(self.functions[fh as int]));
                }
                let nblocks = self.functions[fh].blocks.len();
                let mut bk: usize = 0;
                while bk < nblocks
                    invariant
                        self.wf(),
                        mi < self.modules.len(),
                        fj < self.modules[mi as int].functions.len(),
                        fh == self.modules[mi as int].functions[fj as int],
                        fh < self.functions.len(),
                        self.wf_function(self.functions[fh as int]),
                        nblocks == self.functions[fh as int].blocks.len(),
                        bk <= nblocks,
                        errors@ == spec_errors_upto(self, mi as int) + spec_module_errors_upto(
                            self,
                            self.modules[mi as int],
                            fj as int,
                        ) + spec_block_errors_upto(self, self.functions[fh as int], bk as int),
                    decreases nblocks - bk,
                {
                    let bh = self.functions[fh].blocks[bk];
                    let ghost prev = errors@;
                    match self.verify_block(fh, bh) {
                        Ok(_) => {
                            proof {
                                assert(errors@ =~= prev + err_seq(
                                    spec_block_verdict(
                                        self,
                                        self.functions[fh as int],
                                        self.functions[fh as int].blocks[bk as int] as int,
                                    ),
                                ));
                            }
                        },
                        Err(e) => {
                            errors.push(e);
                            proof {
                                assert(errors@ =~= prev + err_seq(
                                    spec_block_verdict(
                                        self,
                                        self.functions[fh as int],
                                        self.functions[fh as int].blocks[bk as int] as int,
                                    ),
                                ));
                            }
                        },
                    }
                    bk = bk + 1;
                }
                let ghost prev = errors@;
                match verify_storage(&self, fh) {
                    Ok(_) => {
                        proof {
                            assert(errors@ =~= prev + err_seq(
                                spec_storage_verdict(self, self.functions[fh as int]),
                            ));
                        }
                    },
                    Err(e) => {
                        errors.push(e);
                        proof {
                            assert(errors@ =~= prev + err_seq(
                                spec_storage_verdict(self, self.functions[fh as int]),
                            ));
                        }
                    },
                }
                proof {
                    assert(errors@ =~= spec_errors_upto(self, mi as int)
                        + spec_module_errors_upto(self, self.modules[mi as int], fj as int + 1));
                }
                fj = fj + 1;
            }
            proof {
                assert(errors@ =~= spec_errors_upto(self, mi as int + 1));
            }
            mi = mi + 1;
        }
        if errors.len() == 0 {
            Ok(self)
        } else {
            Err(errors)
        }
    }
}

} // verus!
