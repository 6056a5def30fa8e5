//! The Query/Retrieve-Find service (C-FIND), client side.
//!
//! After the request is sent, the peer answers with a stream of
//! responses: every Pending response (Status 0xFF00) announces an
//! identifier data set that follows as a separate DIMSE message, and a
//! terminal response ends the exchange. Status and identifier arrive as
//! two independently fragmented byte streams with no shared key; they
//! are paired purely by arrival order. `FindExchange` is that pairing
//! state machine: it owns the fragment assembler, remembers the status
//! that still awaits its identifier, and records one `FindMatch` per
//! response in arrival order.

use crate::assembler::FragmentAssembler;
use crate::assembler::Pdv;
use crate::assembler::PdvKind;
use crate::codec::dataset_bytes;
use crate::codec::decode;
use crate::codec::decode_command;
use crate::codec::encode;
use crate::codec::encode_command;
use crate::codec::lemma_find_rq_round_trip_safe;
use crate::codec::parsed_attrs;
use crate::command::STATUS_PENDING;
use crate::command::classify_response;
use crate::command::find_identifier;
use crate::command::find_rq;
use crate::command::spec_classify;
use crate::command::spec_find_identifier;
use crate::command::spec_find_rq;
use crate::command::spec_first_text;
use crate::command::spec_implicit_vr_le_uid;
use crate::errors::ExchangeError;
use crate::models::FindMatch;
use crate::models::FindMatchV;
use crate::presentation::PresentationContext;
use crate::presentation::ctxs_view;
use crate::presentation::first_accepted;
use crate::presentation::spec_first_accepted;
use vstd::prelude::*;

verus! {

/// What the exchange should do after an event: go on receiving, or stop
/// (terminal response seen; release the association and return the
/// collected matches).
#[derive(Clone, Copy, PartialEq, Eq, Debug)]
pub enum FindFlow {
    Continue,
    Finished,
}

/// A prepared C-FIND request: the context to send on, the negotiated
/// transfer syntax for identifier data sets, and the two terminal PDVs
/// that carry the command and the query identifier.
pub struct FindRequest {
    pub pc_id: u8,
    pub ts_uid: String,
    pub command: Pdv,
    pub identifier: Pdv,
}

/// Prepares the C-FIND request for an association with the given
/// negotiated presentation contexts: picks the first accepted context,
/// encodes the C-FIND-RQ command set (Implicit VR Little Endian) and the
/// minimal query identifier (negotiated transfer syntax). The command
/// set is constant and always encodes, so with an accepted context the
/// request succeeds exactly when the identifier encodes under the
/// negotiated transfer syntax.
pub fn find_request(ctxs: &Vec<PresentationContext>) -> (r: Result<FindRequest, ExchangeError>)
    ensures
        (r matches Err(e) && e is NoAcceptedPresentationContext) <==> spec_first_accepted(
            ctxs_view(*ctxs),
        ) is None,
        r matches Err(e) ==> e is NoAcceptedPresentationContext || e is EncodeFailed,
        spec_first_accepted(ctxs_view(*ctxs)) matches Some(i) ==> (r is Ok <==> dataset_bytes(
            spec_find_identifier(),
            ctxs_view(*ctxs)[i].transfer_syntax,
        ) is Some),
        r matches Ok(req) ==> {
            &&& spec_first_accepted(ctxs_view(*ctxs)) matches Some(i) && req.pc_id == ctxs_view(
                *ctxs,
            )[i].id && req.ts_uid@ == ctxs_view(*ctxs)[i].transfer_syntax
            &&& req.command.presentation_context_id == req.pc_id
            &&& req.command.kind is Command
            &&& req.command.is_last
            &&& dataset_bytes(spec_find_rq(), spec_implicit_vr_le_uid()) == Some(
                req.command.data@,
            )
            &&& req.identifier.presentation_context_id == req.pc_id
            &&& req.identifier.kind is Data
            &&& req.identifier.is_last
            &&& dataset_bytes(spec_find_identifier(), req.ts_uid@) == Some(req.identifier.data@)
        },
{
    proof {
        lemma_find_rq_round_trip_safe();
    }
    let pc = match first_accepted(ctxs) {
        Some(pc) => pc,
        None => {
            return Err(ExchangeError::NoAcceptedPresentationContext);
        },
    };
    let cmd = find_rq();
    let cmd_bytes = match encode_command(&cmd) {
        Ok(b) => b,
        Err(_) => {
            return Err(ExchangeError::EncodeFailed);
        },
    };
    let ident = find_identifier();
    let ident_bytes = match encode(&ident, pc.transfer_syntax.as_str()) {
        Ok(b) => b,
        Err(_) => {
            return Err(ExchangeError::EncodeFailed);
        },
    };
    Ok(
        FindRequest {
            pc_id: pc.id,
            ts_uid: pc.transfer_syntax.clone(),
            command: Pdv {
                presentation_context_id: pc.id,
                kind: PdvKind::Command,
                is_last: true,
                data: cmd_bytes,
            },
            identifier: Pdv {
                presentation_context_id: pc.id,
                kind: PdvKind::Data,
                is_last: true,
                data: ident_bytes,
            },
        },
    )
}

/// The mathematical state of a Find exchange.
pub struct FindStateV {
    /// Command bytes accumulated and not yet finalized.
    pub command_buf: Seq<u8>,
    /// Data bytes accumulated and not yet finalized.
    pub data_buf: Seq<u8>,
    /// The matches recorded so far, in arrival order.
    pub matches: Seq<FindMatchV>,
    /// The status of a response whose identifier has not arrived yet.
    pub pending_status: Option<u16>,
    /// Whether a terminal response ended the exchange.
    pub done: bool,
    /// UID of the negotiated transfer syntax for identifier data sets.
    pub ts_uid: Seq<char>,
}

/// The view of a recorded match list.
pub open spec fn matches_view(matches: Seq<FindMatch>) -> Seq<FindMatchV> {
    Seq::new(matches.len(), |i: int| matches[i]@)
}

/// The pairing state machine of one C-FIND exchange.
pub struct FindExchange {
    /// Reassembles the interleaved Command and Data fragment streams.
    pub assembler: FragmentAssembler,
    /// The matches recorded so far, in arrival order.
    pub matches: Vec<FindMatch>,
    /// The status of a response whose identifier has not arrived yet.
    pub pending_status: Option<u16>,
    /// Whether a terminal response ended the exchange.
    pub done: bool,
    /// UID of the negotiated transfer syntax for identifier data sets.
    pub ts_uid: String,
}

impl View for FindExchange {
    type V = FindStateV;

    open spec fn view(&self) -> FindStateV {
        FindStateV {
            command_buf: self.assembler.command_buf@,
            data_buf: self.assembler.data_buf@,
            matches: matches_view(self.matches@),
            pending_status: self.pending_status,
            done: self.done,
            ts_uid: self.ts_uid@,
        }
    }
}

/// The state a fresh exchange starts in: empty accumulators, no matches,
/// no pending status.
pub open spec fn spec_find_initial(ts_uid: Seq<char>) -> FindStateV {
    FindStateV {
        command_buf: Seq::<u8>::empty(),
        data_buf: Seq::<u8>::empty(),
        matches: Seq::<FindMatchV>::empty(),
        pending_status: None,
        done: false,
        ts_uid: ts_uid,
    }
}

/// What a finalized Command message does to the exchange, given the
/// complete buffer: decode, classify, then either park the status until
/// its identifier arrives (a data set follows) or record a match with no
/// identifier keys and stop unless the status is Pending.
pub open spec fn spec_on_command_complete(s: FindStateV, buf: Seq<u8>) -> Result<
    (FindStateV, FindFlow),
    ExchangeError,
> {
    match parsed_attrs(buf, spec_implicit_vr_le_uid()) {
        None => Err(ExchangeError::DecodeFailed),
        Some(attrs) => match spec_classify(attrs) {
            None => Err(ExchangeError::MissingStatus),
            Some(summary) => if summary.has_data_set {
                Ok((FindStateV { pending_status: Some(summary.status), ..s }, FindFlow::Continue))
            } else {
                let recorded = FindStateV {
                    matches: s.matches.push(
                        FindMatchV {
                            status: summary.status,
                            patient_name: None,
                            study_instance_uid: None,
                        },
                    ),
                    ..s
                };
                if summary.status != STATUS_PENDING {
                    Ok((FindStateV { done: true, ..recorded }, FindFlow::Finished))
                } else {
                    Ok((recorded, FindFlow::Continue))
                }
            },
        },
    }
}

/// What a finalized Data message does to the exchange, given the
/// complete buffer: decode the identifier under the negotiated transfer
/// syntax, pair it with the remembered pending status, record the match
/// with whatever Patient Name and Study Instance UID keys are present,
/// and stop unless that status was Pending.
pub open spec fn spec_on_data_complete(s: FindStateV, buf: Seq<u8>) -> Result<
    (FindStateV, FindFlow),
    ExchangeError,
> {
    let status = match s.pending_status {
        Some(v) => v,
        None => 0x0000u16,
    };
    match parsed_attrs(buf, s.ts_uid) {
        None => Err(ExchangeError::DecodeFailed),
        Some(attrs) => {
            let recorded = FindStateV {
                pending_status: None,
                matches: s.matches.push(
                    FindMatchV {
                        status: status,
                        patient_name: spec_first_text(attrs, 0x0010, 0x0010),
                        study_instance_uid: spec_first_text(attrs, 0x0020, 0x000D),
                    },
                ),
                ..s
            };
            if status != STATUS_PENDING {
                Ok((FindStateV { done: true, ..recorded }, FindFlow::Finished))
            } else {
                Ok((recorded, FindFlow::Continue))
            }
        },
    }
}

/// What one received PDV does to the exchange: nothing once the exchange
/// is done; otherwise the fragment is appended to its kind's
/// accumulator, and a terminal fragment finalizes that kind's message
/// and hands it to the Command or Data handler.
pub open spec fn spec_on_pdv(s: FindStateV, kind: PdvKind, data: Seq<u8>, is_last: bool) -> Result<
    (FindStateV, FindFlow),
    ExchangeError,
> {
    if s.done {
        Ok((s, FindFlow::Finished))
    } else {
        match kind {
            PdvKind::Command => {
                if !is_last {
                    Ok((FindStateV { command_buf: s.command_buf + data, ..s }, FindFlow::Continue))
                } else {
                    spec_on_command_complete(
                        FindStateV { command_buf: Seq::<u8>::empty(), ..s },
                        s.command_buf + data,
                    )
                }
            },
            PdvKind::Data => {
                if !is_last {
                    Ok((FindStateV { data_buf: s.data_buf + data, ..s }, FindFlow::Continue))
                } else {
                    spec_on_data_complete(
                        FindStateV { data_buf: Seq::<u8>::empty(), ..s },
                        s.data_buf + data,
                    )
                }
            },
        }
    }
}

impl FindExchange {
    /// A fresh exchange for identifiers negotiated under `ts_uid`.
    pub fn new(ts_uid: String) -> (r: FindExchange)
        ensures
            r@ == spec_find_initial(ts_uid@),
    {
        let r = FindExchange {
            assembler: FragmentAssembler::new(),
            matches: Vec::new(),
            pending_status: None,
            done: false,
            ts_uid,
        };
        proof {
            assert(r@.matches =~= Seq::<FindMatchV>::empty());
            assert(r@ =~= spec_find_initial(r.ts_uid@));
        }
        r
    }

    /// Feeds one received PDV to the exchange and says whether to go on
    /// receiving. A decode failure or a response without a Status is
    /// fatal: the exchange is aborted and the error propagated.
    pub fn on_pdv(&mut self, pdv: &Pdv) -> (r: Result<FindFlow, ExchangeError>)
        ensures
            match r {
                Ok(flow) => spec_on_pdv(old(self)@, pdv.kind, pdv.data@, pdv.is_last) == Ok::<
                    (FindStateV, FindFlow),
                    ExchangeError,
                >((final(self)@, flow)),
                Err(e) => spec_on_pdv(old(self)@, pdv.kind, pdv.data@, pdv.is_last) == Err::<
                    (FindStateV, FindFlow),
                    ExchangeError,
                >(e),
            },
            final(self).ts_uid@ == old(self).ts_uid@,
            final(self).done ==> (r matches Ok(f) ==> f is Finished),
    {
        if self.done {
            return Ok(FindFlow::Finished);
        }
        let completed = self.assembler.push(pdv);
        match completed {
            None => Ok(FindFlow::Continue),
            Some(buf) => match pdv.kind {
                PdvKind::Command => self.on_command_complete(&buf),
                PdvKind::Data => self.on_data_complete(&buf),
            },
        }
    }

    /// Handles a finalized Command message buffer.
    fn on_command_complete(&mut self, buf: &Vec<u8>) -> (r: Result<FindFlow, ExchangeError>)
        ensures
            match r {
                Ok(flow) => spec_on_command_complete(old(self)@, buf@) == Ok::<
                    (FindStateV, FindFlow),
                    ExchangeError,
                >((final(self)@, flow)),
                Err(e) => spec_on_command_complete(old(self)@, buf@) == Err::<
                    (FindStateV, FindFlow),
                    ExchangeError,
                >(e),
            },
            final(self).ts_uid@ == old(self).ts_uid@,
    {
        let cmd = match decode_command(buf) {
            Ok(c) => c,
            Err(e) => {
                return Err(e);
            },
        };
        let summary = match classify_response(&cmd) {
            Ok(s) => s,
            Err(e) => {
                return Err(e);
            },
        };
        if summary.has_data_set {
            self.pending_status = Some(summary.status);
            Ok(FindFlow::Continue)
        } else {
            self.matches.push(
                FindMatch { status: summary.status, patient_name: None, study_instance_uid: None },
            );
            proof {
                assert(matches_view(self.matches@) =~= old(self)@.matches.push(
                    FindMatchV {
                        status: summary.status,
                        patient_name: None,
                        study_instance_uid: None,
                    },
                ));
            }
            if summary.status != STATUS_PENDING {
                self.done = true;
                Ok(FindFlow::Finished)
            } else {
                Ok(FindFlow::Continue)
            }
        }
    }

    /// Handles a finalized Data (identifier) message buffer.
    fn on_data_complete(&mut self, buf: &Vec<u8>) -> (r: Result<FindFlow, ExchangeError>)
        ensures
            match r {
                Ok(flow) => spec_on_data_complete(old(self)@, buf@) == Ok::<
                    (FindStateV, FindFlow),
                    ExchangeError,
                >((final(self)@, flow)),
                Err(e) => spec_on_data_complete(old(self)@, buf@) == Err::<
                    (FindStateV, FindFlow),
                    ExchangeError,
                >(e),
            },
            final(self).ts_uid@ == old(self).ts_uid@,
    {
        let status = match self.pending_status {
            Some(v) => v,
            None => 0x0000,
        };
        let ident = match decode(buf, self.ts_uid.as_str()) {
            Ok(a) => a,
            Err(e) => {
                return Err(e);
            },
        };
        self.pending_status = None;
        let patient_name = ident.first_text(0x0010, 0x0010);
        let study_instance_uid = ident.first_text(0x0020, 0x000D);
        let ghost pn_v: Option<Seq<char>> = match &patient_name {
            Some(s) => Some(s@),
            None => None,
        };
        let ghost suid_v: Option<Seq<char>> = match &study_instance_uid {
            Some(s) => Some(s@),
            None => None,
        };
        self.matches.push(FindMatch { status, patient_name, study_instance_uid });
        proof {
            assert(matches_view(self.matches@) =~= old(self)@.matches.push(
                FindMatchV { status: status, patient_name: pn_v, study_instance_uid: suid_v },
            ));
        }
        if status != STATUS_PENDING {
            self.done = true;
            Ok(FindFlow::Finished)
        } else {
            Ok(FindFlow::Continue)
        }
    }

    /// Hands the recorded matches out, in arrival order.
    pub fn into_matches(self) -> (r: Vec<FindMatch>)
        ensures
            matches_view(r@) == self@.matches,
    {
        self.matches
    }
}


/// Arrival order is kept: whatever one received PDV does to the
/// exchange, the matches already recorded stay in place unchanged; a
/// step can only append to them.
pub proof fn lemma_matches_append_only(s: FindStateV, kind: PdvKind, data: Seq<u8>, is_last: bool)
    ensures
        spec_on_pdv(s, kind, data, is_last) matches Ok(step) ==> step.0.matches.len()
            >= s.matches.len() && step.0.matches.subrange(0, s.matches.len() as int) == s.matches,
{
    if let Ok(step) = spec_on_pdv(s, kind, data, is_last) {
        assert(step.0.matches.len() >= s.matches.len() && step.0.matches.subrange(
            0,
            s.matches.len() as int,
        ) =~= s.matches) by {
            if !s.done && is_last {
                let m = step.0.matches;
                if m.len() == s.matches.len() + 1 {
                    assert(s.matches.push(m.last()).subrange(0, s.matches.len() as int)
                        =~= s.matches);
                }
            }
        }
    }
}

} // verus!
