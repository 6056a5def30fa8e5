//! Reassembly of fragmented DIMSE messages.
//!
//! A DIMSE message arrives as a sequence of Protocol Data Values (PDVs),
//! each tagged as a Command or a Data fragment. Fragments of one kind are
//! concatenated in arrival order until a fragment with `is_last` set
//! finalizes the message of that kind. Command and Data fragments may be
//! interleaved, so the assembler keeps one accumulator per kind and
//! finalizes each independently.

use vstd::prelude::*;

verus! {

/// The kind of payload a PDV fragment carries.
#[derive(Clone, Copy, PartialEq, Eq, Debug)]
pub enum PdvKind {
    Command,
    Data,
}

/// One PDV fragment, as carried inside a P-DATA PDU.
#[derive(Clone, Debug)]
pub struct Pdv {
    /// Identifier of the presentation context the fragment belongs to.
    pub presentation_context_id: u8,
    /// Whether the fragment carries Command or Data bytes.
    pub kind: PdvKind,
    /// Whether this fragment is the final one of its kind's message.
    pub is_last: bool,
    /// The fragment's payload.
    pub data: Vec<u8>,
}

/// Accumulates PDV fragments per kind until a terminal fragment arrives.
///
/// Both accumulators start empty, and an accumulator is reset to empty
/// immediately after it is finalized, so one assembler can serve all
/// response cycles of an exchange.
pub struct FragmentAssembler {
    /// Bytes of the Command message accumulated so far.
    pub command_buf: Vec<u8>,
    /// Bytes of the Data message accumulated so far.
    pub data_buf: Vec<u8>,
}

impl FragmentAssembler {
    /// Creates an assembler with both accumulators empty.
    pub fn new() -> (r: FragmentAssembler)
        ensures
            r.command_buf@ == Seq::<u8>::empty(),
            r.data_buf@ == Seq::<u8>::empty(),
    {
        FragmentAssembler { command_buf: Vec::new(), data_buf: Vec::new() }
    }

    /// Feeds one fragment. Returns the complete message of the fragment's
    /// kind when the fragment is terminal, and `None` otherwise. The other
    /// kind's accumulator is never touched.
    pub fn push(&mut self, pdv: &Pdv) -> (r: Option<Vec<u8>>)
        ensures
            pdv.kind is Command ==> final(self).data_buf@ == old(self).data_buf@,
            pdv.kind is Data ==> final(self).command_buf@ == old(self).command_buf@,
            !pdv.is_last ==> r is None,
            !pdv.is_last && pdv.kind is Command ==> final(self).command_buf@ == old(
                self,
            ).command_buf@ + pdv.data@,
            !pdv.is_last && pdv.kind is Data ==> final(self).data_buf@ == old(self).data_buf@
                + pdv.data@,
            pdv.is_last && pdv.kind is Command ==> (r matches Some(b) && b@ == old(
                self,
            ).command_buf@ + pdv.data@) && final(self).command_buf@ == Seq::<u8>::empty(),
            pdv.is_last && pdv.kind is Data ==> (r matches Some(b) && b@ == old(self).data_buf@
                + pdv.data@) && final(self).data_buf@ == Seq::<u8>::empty(),
    {
        match pdv.kind {
            PdvKind::Command => {
                append_bytes(&mut self.command_buf, &pdv.data);
                if pdv.is_last {
                    let mut complete: Vec<u8> = Vec::new();
                    core::mem::swap(&mut self.command_buf, &mut complete);
                    Some(complete)
                } else {
                    None
                }
            },
            PdvKind::Data => {
                append_bytes(&mut self.data_buf, &pdv.data);
                if pdv.is_last {
                    let mut complete: Vec<u8> = Vec::new();
                    core::mem::swap(&mut self.data_buf, &mut complete);
                    Some(complete)
                } else {
                    None
                }
            },
        }
    }
}

/// Appends all bytes of `src` to `dst`, preserving order.
fn append_bytes(dst: &mut Vec<u8>, src: &Vec<u8>)
    ensures
        final(dst)@ == old(dst)@ + src@,
{
    let mut i: usize = 0;
    while i < src.len()
        invariant
            i <= src.len(),
            dst@ == old(dst)@ + src@.subrange(0, i as int),
        decreases src.len() - i,
    {
        dst.push(src[i]);
        i = i + 1;
        proof {
            assert(dst@ == old(dst)@ + src@.subrange(0, i as int));
        }
    }
    proof {
        assert(src@.subrange(0, src@.len() as int) == src@);
    }
}

/// The buffer an accumulator holds after the fragments of `parts` have
/// been fed to it in order, starting empty: each step appends one
/// fragment's bytes, exactly as `FragmentAssembler::push` does.
pub open spec fn accumulate(parts: Seq<Seq<u8>>) -> Seq<u8>
    decreases parts.len(),
{
    if parts.len() == 0 {
        Seq::<u8>::empty()
    } else {
        accumulate(parts.drop_last()) + parts.last()
    }
}

/// Reassembly law: feeding any partition of a byte buffer into PDVs of one
/// kind, all non-terminal except the last one, yields exactly the
/// concatenation of the fragments -- the original buffer -- independent of
/// where the partition boundaries lie. `accumulate` is the accumulator
/// value that `FragmentAssembler::push` builds step by step, and it equals
/// the flattening of the fragment sequence.
pub proof fn lemma_partition_reassembles(parts: Seq<Seq<u8>>)
    ensures
        accumulate(parts) == parts.flatten(),
    decreases parts.len(),
{
    if parts.len() == 0 {
        assert(parts.flatten() == Seq::<u8>::empty()) by {
            reveal_with_fuel(Seq::flatten, 2);
        }
    } else {
        lemma_partition_reassembles(parts.drop_last());
        parts.lemma_flatten_and_flatten_alt_are_equivalent();
        parts.drop_last().lemma_flatten_and_flatten_alt_are_equivalent();
        assert(parts.flatten_alt() == parts.drop_last().flatten_alt() + parts.last());
    }
}

} // verus!
