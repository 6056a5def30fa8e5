//! Negotiated presentation contexts, reduced to what the exchange layer
//! reads: the context id, the negotiated transfer syntax, and whether the
//! peer accepted the context. Only an accepted context may carry
//! messages.

use vstd::prelude::*;

verus! {

/// One presentation context as the association negotiation left it.
#[derive(Clone, Debug)]
pub struct PresentationContext {
    /// The context id messages are tagged with.
    pub id: u8,
    /// Whether the peer accepted the context.
    pub accepted: bool,
    /// UID of the negotiated transfer syntax.
    pub transfer_syntax: String,
}

/// The mathematical value of a presentation context.
pub struct PresentationContextV {
    pub id: u8,
    pub accepted: bool,
    pub transfer_syntax: Seq<char>,
}

impl View for PresentationContext {
    type V = PresentationContextV;

    open spec fn view(&self) -> PresentationContextV {
        PresentationContextV {
            id: self.id,
            accepted: self.accepted,
            transfer_syntax: self.transfer_syntax@,
        }
    }
}

/// The index of the first accepted context at or after `from`, if any.
pub open spec fn spec_first_accepted_from(ctxs: Seq<PresentationContextV>, from: int) -> Option<int>
    decreases ctxs.len() - from when 0 <= from <= ctxs.len()
{
    if from >= ctxs.len() {
        None
    } else if ctxs[from].accepted {
        Some(from)
    } else {
        spec_first_accepted_from(ctxs, from + 1)
    }
}

/// The index of the first accepted context, if any.
pub open spec fn spec_first_accepted(ctxs: Seq<PresentationContextV>) -> Option<int> {
    spec_first_accepted_from(ctxs, 0)
}

/// The view of a context sequence.
pub open spec fn ctxs_view(ctxs: Vec<PresentationContext>) -> Seq<PresentationContextV> {
    Seq::new(ctxs@.len(), |i: int| ctxs@[i]@)
}

/// Returns the first accepted presentation context, or `None` when the
/// peer accepted none.
pub fn first_accepted(ctxs: &Vec<PresentationContext>) -> (r: Option<&PresentationContext>)
    ensures
        match r {
            Some(pc) => {
                &&& spec_first_accepted(ctxs_view(*ctxs)) matches Some(i) && ctxs_view(*ctxs)[i]
                    == pc@
            },
            None => spec_first_accepted(ctxs_view(*ctxs)) is None,
        },
{
    let n = ctxs.len();
    let mut i: usize = 0;
    while i < n
        invariant
            n == ctxs@.len(),
            0 <= i <= n,
            spec_first_accepted(ctxs_view(*ctxs)) == spec_first_accepted_from(
                ctxs_view(*ctxs),
                i as int,
            ),
        decreases n - i,
    {
        if ctxs[i].accepted {
            return Some(&ctxs[i]);
        }
        i = i + 1;
    }
    None
}

} // verus!
