//! The Verification service (C-ECHO), client side.
//!
//! One request command is sent as a single terminal Command PDV; one
//! response is received, reassembled and classified. The exchange
//! succeeds whatever Status the peer reports — only a missing or
//! malformed response fails it.

use crate::assembler::Pdv;
use crate::assembler::PdvKind;
use crate::codec::classify_response_bytes;
use crate::codec::dataset_bytes;
use crate::codec::encode_command;
use crate::codec::lemma_echo_rq_round_trip_safe;
use crate::codec::parsed_attrs;
use crate::command::echo_rq;
use crate::command::spec_classify;
use crate::command::spec_echo_rq;
use crate::command::spec_implicit_vr_le_uid;
use crate::errors::ExchangeError;
use crate::presentation::PresentationContext;
use crate::presentation::ctxs_view;
use crate::presentation::first_accepted;
use crate::presentation::spec_first_accepted;
use vstd::prelude::*;

verus! {

/// A prepared C-ECHO request: the context to send on and the one
/// terminal Command PDV that carries the whole request.
pub struct EchoRequest {
    pub pc_id: u8,
    pub command: Pdv,
}

/// Prepares the C-ECHO request for an association with the given
/// negotiated presentation contexts: picks the first accepted context
/// and encodes the C-ECHO-RQ command set for it. Succeeds exactly when
/// the peer accepted a context: the C-ECHO-RQ set is constant and
/// always encodes.
pub fn echo_request(ctxs: &Vec<PresentationContext>) -> (r: Result<EchoRequest, ExchangeError>)
    ensures
        r is Ok <==> spec_first_accepted(ctxs_view(*ctxs)) is Some,
        r matches Err(e) ==> e is NoAcceptedPresentationContext,
        r matches Ok(req) ==> {
            &&& spec_first_accepted(ctxs_view(*ctxs)) matches Some(i) && req.pc_id == ctxs_view(
                *ctxs,
            )[i].id
            &&& req.command.presentation_context_id == req.pc_id
            &&& req.command.kind is Command
            &&& req.command.is_last
            &&& dataset_bytes(spec_echo_rq(), spec_implicit_vr_le_uid()) == Some(
                req.command.data@,
            )
        },
{
    proof {
        lemma_echo_rq_round_trip_safe();
    }
    let pc = match first_accepted(ctxs) {
        Some(pc) => pc,
        None => {
            return Err(ExchangeError::NoAcceptedPresentationContext);
        },
    };
    let cmd = echo_rq();
    let bytes = match encode_command(&cmd) {
        Ok(b) => b,
        Err(_) => {
            return Err(ExchangeError::EncodeFailed);
        },
    };
    Ok(
        EchoRequest {
            pc_id: pc.id,
            command: Pdv {
                presentation_context_id: pc.id,
                kind: PdvKind::Command,
                is_last: true,
                data: bytes,
            },
        },
    )
}

/// Handles the reassembled C-ECHO response command: the exchange
/// succeeds exactly when the bytes decode and carry a Status, whatever
/// that Status is.
pub fn echo_handle_response(bytes: &Vec<u8>) -> (r: Result<(), ExchangeError>)
    ensures
        match parsed_attrs(bytes@, spec_implicit_vr_le_uid()) {
            None => r matches Err(e) && e is DecodeFailed,
            Some(attrs) => match spec_classify(attrs) {
                None => r matches Err(e) && e is MissingStatus,
                Some(_) => r is Ok,
            },
        },
{
    match classify_response_bytes(bytes) {
        Ok(_) => Ok(()),
        Err(e) => Err(e),
    }
}

} // verus!
