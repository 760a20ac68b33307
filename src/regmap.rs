use vstd::prelude::*;
use crate::consts::{
    PLIC_CONTEXT_CLAIM_COMPLETE_OFFSET, PLIC_CONTEXT_CTRL_OFFSET, PLIC_CONTEXT_STRIDE,
    PLIC_CONTEXT_THRESHOLD_OFFSET, PLIC_ENABLE_OFFSET, PLIC_ENABLE_STRIDE, PLIC_PENDING_OFFSET,
};
use crate::error::PlicError;

verus! {

/// The register that an offset of the controller's window names.
#[derive(Clone, Copy, Debug, PartialEq, Eq, Structural)]
pub enum Region {
    /// The priority register of a source id.
    Priority(usize),
    /// A pending word, by its index.
    Pending(usize),
    /// The enable block of a context.
    Enable(usize),
    /// The threshold register of a context.
    Threshold(usize),
    /// The claim/complete register of a context.
    ClaimComplete(usize),
}

/// What the register map makes of `offset` with `contexts_num` contexts.
pub open spec fn decode(offset: usize, contexts_num: usize) -> Result<Region, PlicError> {
    if offset < PLIC_PENDING_OFFSET {
        Ok(Region::Priority(offset / 4))
    } else if offset < PLIC_ENABLE_OFFSET {
        Ok(Region::Pending(((offset - PLIC_PENDING_OFFSET) / 4) as usize))
    } else if offset < PLIC_CONTEXT_CTRL_OFFSET {
        let ctx = ((offset - PLIC_ENABLE_OFFSET) / (PLIC_ENABLE_STRIDE as int)) as usize;
        if ctx < contexts_num {
            Ok(Region::Enable(ctx))
        } else {
            Err(PlicError::InvalidContext)
        }
    } else {
        let rel = offset - PLIC_CONTEXT_CTRL_OFFSET;
        let ctx = (rel / (PLIC_CONTEXT_STRIDE as int)) as usize;
        let within = rel % (PLIC_CONTEXT_STRIDE as int);
        if within == PLIC_CONTEXT_THRESHOLD_OFFSET {
            if ctx < contexts_num {
                Ok(Region::Threshold(ctx))
            } else {
                Err(PlicError::InvalidContext)
            }
        } else if within == PLIC_CONTEXT_CLAIM_COMPLETE_OFFSET {
            if ctx < contexts_num {
                Ok(Region::ClaimComplete(ctx))
            } else {
                Err(PlicError::InvalidContext)
            }
        } else {
            Err(PlicError::UnmappedRegister)
        }
    }
}

/// Classifies an offset of the controller's window.
pub fn classify(offset: usize, contexts_num: usize) -> (r: Result<Region, PlicError>)
    ensures
        r == decode(offset, contexts_num),
{
    if offset < PLIC_PENDING_OFFSET {
        Ok(Region::Priority(offset / 4))
    } else if offset < PLIC_ENABLE_OFFSET {
        Ok(Region::Pending((offset - PLIC_PENDING_OFFSET) / 4))
    } else if offset < PLIC_CONTEXT_CTRL_OFFSET {
        let ctx = (offset - PLIC_ENABLE_OFFSET) / PLIC_ENABLE_STRIDE;
        if ctx < contexts_num {
            Ok(Region::Enable(ctx))
        } else {
            Err(PlicError::InvalidContext)
        }
    } else {
        let rel = offset - PLIC_CONTEXT_CTRL_OFFSET;
        let ctx = rel / PLIC_CONTEXT_STRIDE;
        let within = rel % PLIC_CONTEXT_STRIDE;
        if within == PLIC_CONTEXT_THRESHOLD_OFFSET {
            if ctx < contexts_num {
                Ok(Region::Threshold(ctx))
            } else {
                Err(PlicError::InvalidContext)
            }
        } else if within == PLIC_CONTEXT_CLAIM_COMPLETE_OFFSET {
            if ctx < contexts_num {
                Ok(Region::ClaimComplete(ctx))
            } else {
                Err(PlicError::InvalidContext)
            }
        } else {
            Err(PlicError::UnmappedRegister)
        }
    }
}

/// The claim/complete register one past the last context is refused as an
/// invalid context, whatever the number of contexts.
pub proof fn lemma_claim_register_past_last_context(contexts_num: usize)
    requires
        PLIC_CONTEXT_CTRL_OFFSET + contexts_num * PLIC_CONTEXT_STRIDE
            + PLIC_CONTEXT_CLAIM_COMPLETE_OFFSET <= usize::MAX,
    ensures
        decode(
            (PLIC_CONTEXT_CTRL_OFFSET + contexts_num * PLIC_CONTEXT_STRIDE
                + PLIC_CONTEXT_CLAIM_COMPLETE_OFFSET) as usize,
            contexts_num,
        ) == Err::<Region, PlicError>(PlicError::InvalidContext),
{
    let offset = (PLIC_CONTEXT_CTRL_OFFSET + contexts_num * PLIC_CONTEXT_STRIDE
        + PLIC_CONTEXT_CLAIM_COMPLETE_OFFSET) as usize;
    let rel = offset - PLIC_CONTEXT_CTRL_OFFSET;
    assert(rel == contexts_num * 0x1000 + 4);
    assert(rel / 0x1000 == contexts_num && rel % 0x1000 == 4) by (nonlinear_arith)
        requires
            rel == contexts_num * 0x1000 + 4,
    ;
}

} // verus!
