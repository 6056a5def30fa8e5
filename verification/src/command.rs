//! The DIMSE command model: a small ordered attribute set.
//!
//! A command message is an ordered list of attributes, each a tag
//! (group, element) with a primitive value: an unsigned short, a UID
//! string or a person name string. Requests for the three services are
//! built here; responses are classified by looking the Status and
//! Command Data Set Type attributes up.

use crate::errors::ExchangeError;
use vstd::prelude::*;

verus! {

/// Command Field code of a C-STORE request.
pub const C_STORE_RQ: u16 = 0x0001;

/// Command Field code of a C-FIND request.
pub const C_FIND_RQ: u16 = 0x0020;

/// Command Field code of a C-ECHO request.
pub const C_ECHO_RQ: u16 = 0x0030;

/// Command Data Set Type value meaning that no data set follows.
pub const NO_DATA_SET: u16 = 0x0101;

/// Status code of a successful DIMSE response.
pub const STATUS_SUCCESS: u16 = 0x0000;

/// Status code of a pending C-FIND response: more responses follow.
pub const STATUS_PENDING: u16 = 0xFF00;

/// The value of one attribute. The variant fixes the value
/// representation the attribute is encoded with: US, UI or PN.
#[derive(Clone, PartialEq, Eq, Debug)]
pub enum AttrValue {
    UShort(u16),
    Uid(String),
    PersonName(String),
}

/// The mathematical value of an attribute value.
pub enum AttrValueV {
    UShort(u16),
    Uid(Seq<char>),
    PersonName(Seq<char>),
}

impl View for AttrValue {
    type V = AttrValueV;

    open spec fn view(&self) -> AttrValueV {
        match self {
            AttrValue::UShort(v) => AttrValueV::UShort(*v),
            AttrValue::Uid(s) => AttrValueV::Uid(s@),
            AttrValue::PersonName(s) => AttrValueV::PersonName(s@),
        }
    }
}

/// One attribute: a tag and its value.
#[derive(Clone, PartialEq, Eq, Debug)]
pub struct Attr {
    pub group: u16,
    pub element: u16,
    pub value: AttrValue,
}

/// The mathematical value of an attribute.
pub struct AttrV {
    pub group: u16,
    pub element: u16,
    pub value: AttrValueV,
}

impl View for Attr {
    type V = AttrV;

    open spec fn view(&self) -> AttrV {
        AttrV { group: self.group, element: self.element, value: self.value@ }
    }
}

/// An ordered attribute set: the in-memory form of a command message or
/// of a query identifier data set.
#[derive(Clone, PartialEq, Eq, Debug)]
pub struct AttrSet {
    pub attrs: Vec<Attr>,
}

impl View for AttrSet {
    type V = Seq<AttrV>;

    open spec fn view(&self) -> Seq<AttrV> {
        Seq::new(self.attrs@.len(), |i: int| self.attrs@[i]@)
    }
}

/// The first unsigned-short value under the given tag, if any, searching
/// from position `from` on.
pub open spec fn spec_first_uint_from(attrs: Seq<AttrV>, group: u16, element: u16, from: int) -> Option<u16>
    decreases attrs.len() - from when 0 <= from <= attrs.len()
{
    if from >= attrs.len() {
        None
    } else if attrs[from].group == group && attrs[from].element == element
        && attrs[from].value is UShort {
        Some(attrs[from].value->UShort_0)
    } else {
        spec_first_uint_from(attrs, group, element, from + 1)
    }
}

/// The first unsigned-short value under the given tag, if any.
pub open spec fn spec_first_uint(attrs: Seq<AttrV>, group: u16, element: u16) -> Option<u16> {
    spec_first_uint_from(attrs, group, element, 0)
}

/// The first text value (UID or person name) under the given tag, if any,
/// searching from position `from` on.
pub open spec fn spec_first_text_from(attrs: Seq<AttrV>, group: u16, element: u16, from: int) -> Option<Seq<char>>
    decreases attrs.len() - from when 0 <= from <= attrs.len()
{
    if from >= attrs.len() {
        None
    } else if attrs[from].group == group && attrs[from].element == element && (
    attrs[from].value is Uid || attrs[from].value is PersonName) {
        match attrs[from].value {
            AttrValueV::Uid(s) => Some(s),
            AttrValueV::PersonName(s) => Some(s),
            AttrValueV::UShort(_) => None,
        }
    } else {
        spec_first_text_from(attrs, group, element, from + 1)
    }
}

/// The first text value (UID or person name) under the given tag, if any.
pub open spec fn spec_first_text(attrs: Seq<AttrV>, group: u16, element: u16) -> Option<Seq<char>> {
    spec_first_text_from(attrs, group, element, 0)
}

impl AttrSet {
    /// An attribute set with no attributes.
    pub fn new_empty() -> (r: AttrSet)
        ensures
            r@ == Seq::<AttrV>::empty(),
    {
        let r = AttrSet { attrs: Vec::new() };
        proof {
            assert(r@ =~= Seq::<AttrV>::empty());
        }
        r
    }

    /// Appends an unsigned-short attribute.
    pub fn push_ushort(&mut self, group: u16, element: u16, value: u16)
        ensures
            final(self)@ == old(self)@.push(
                AttrV { group, element, value: AttrValueV::UShort(value) },
            ),
    {
        self.attrs.push(Attr { group, element, value: AttrValue::UShort(value) });
        proof {
            assert(final(self)@ =~= old(self)@.push(
                AttrV { group, element, value: AttrValueV::UShort(value) },
            ));
        }
    }

    /// Appends a UID attribute.
    pub fn push_uid(&mut self, group: u16, element: u16, value: String)
        ensures
            final(self)@ == old(self)@.push(
                AttrV { group, element, value: AttrValueV::Uid(value@) },
            ),
    {
        self.attrs.push(Attr { group, element, value: AttrValue::Uid(value) });
        proof {
            assert(final(self)@ =~= old(self)@.push(
                AttrV { group, element, value: AttrValueV::Uid(value@) },
            ));
        }
    }

    /// Appends a person-name attribute.
    pub fn push_person_name(&mut self, group: u16, element: u16, value: String)
        ensures
            final(self)@ == old(self)@.push(
                AttrV { group, element, value: AttrValueV::PersonName(value@) },
            ),
    {
        self.attrs.push(Attr { group, element, value: AttrValue::PersonName(value) });
        proof {
            assert(final(self)@ =~= old(self)@.push(
                AttrV { group, element, value: AttrValueV::PersonName(value@) },
            ));
        }
    }

    /// The first unsigned-short value under the given tag, if any.
    pub fn first_uint(&self, group: u16, element: u16) -> (r: Option<u16>)
        ensures
            r == spec_first_uint(self@, group, element),
    {
        let n = self.attrs.len();
        let mut i: usize = 0;
        while i < n
            invariant
                n == self.attrs@.len(),
                0 <= i <= n,
                spec_first_uint(self@, group, element) == spec_first_uint_from(
                    self@,
                    group,
                    element,
                    i as int,
                ),
            decreases n - i,
        {
            let a = &self.attrs[i];
            match &a.value {
                AttrValue::UShort(v) => {
                    if a.group == group && a.element == element {
                        return Some(*v);
                    }
                },
                _ => {},
            }
            i = i + 1;
        }
        None
    }

    /// The first text value (UID or person name) under the given tag, if
    /// any, as an owned string.
    pub fn first_text(&self, group: u16, element: u16) -> (r: Option<String>)
        ensures
            match r {
                Some(s) => spec_first_text(self@, group, element) == Some(s@),
                None => spec_first_text(self@, group, element) is None,
            },
    {
        let n = self.attrs.len();
        let mut i: usize = 0;
        while i < n
            invariant
                n == self.attrs@.len(),
                0 <= i <= n,
                spec_first_text(self@, group, element) == spec_first_text_from(
                    self@,
                    group,
                    element,
                    i as int,
                ),
            decreases n - i,
        {
            let a = &self.attrs[i];
            if a.group == group && a.element == element {
                match &a.value {
                    AttrValue::Uid(s) => {
                        return Some(s.clone());
                    },
                    AttrValue::PersonName(s) => {
                        return Some(s.clone());
                    },
                    AttrValue::UShort(_) => {},
                }
            }
            i = i + 1;
        }
        None
    }
}

/// UID of the Verification SOP Class, the abstract syntax of C-ECHO.
pub fn verification_sop_class_uid() -> (r: &'static str)
    ensures
        r@ == spec_verification_sop_class_uid(),
{
    "1.2.840.10008.1.1"
}

/// The characters of the Verification SOP Class UID.
pub open spec fn spec_verification_sop_class_uid() -> Seq<char> {
    "1.2.840.10008.1.1"@
}

/// UID of the Study Root Query/Retrieve Information Model - FIND abstract
/// syntax, used by C-FIND.
pub fn study_root_find_uid() -> (r: &'static str)
    ensures
        r@ == spec_study_root_find_uid(),
{
    "1.2.840.10008.5.1.4.1.2.2.1"
}

/// The characters of the Study Root Query/Retrieve - FIND UID.
pub open spec fn spec_study_root_find_uid() -> Seq<char> {
    "1.2.840.10008.5.1.4.1.2.2.1"@
}

/// UID of the Implicit VR Little Endian transfer syntax, the mandatory
/// encoding of every command message.
pub fn implicit_vr_le_uid() -> (r: &'static str)
    ensures
        r@ == spec_implicit_vr_le_uid(),
{
    "1.2.840.10008.1.2"
}

/// The characters of the Implicit VR Little Endian UID.
pub open spec fn spec_implicit_vr_le_uid() -> Seq<char> {
    "1.2.840.10008.1.2"@
}

/// The C-ECHO-RQ command set: Verification SOP class, C-ECHO-RQ command
/// field, message id 1, no data set following.
pub open spec fn spec_echo_rq() -> Seq<AttrV> {
    seq![
        AttrV { group: 0x0000, element: 0x0002, value: AttrValueV::Uid(spec_verification_sop_class_uid()) },
        AttrV { group: 0x0000, element: 0x0100, value: AttrValueV::UShort(C_ECHO_RQ) },
        AttrV { group: 0x0000, element: 0x0110, value: AttrValueV::UShort(1) },
        AttrV { group: 0x0000, element: 0x0800, value: AttrValueV::UShort(NO_DATA_SET) },
    ]
}

/// Builds the C-ECHO-RQ command set.
pub fn echo_rq() -> (r: AttrSet)
    ensures
        r@ == spec_echo_rq(),
{
    let mut s = AttrSet::new_empty();
    s.push_uid(0x0000, 0x0002, String::from_str(verification_sop_class_uid()));
    s.push_ushort(0x0000, 0x0100, C_ECHO_RQ);
    s.push_ushort(0x0000, 0x0110, 1);
    s.push_ushort(0x0000, 0x0800, NO_DATA_SET);
    proof {
        assert(s@ =~= spec_echo_rq());
    }
    s
}

/// The C-STORE-RQ command set for a document with the given SOP Class and
/// SOP Instance UIDs: C-STORE-RQ command field, message id 2, a data set
/// following, and the affected SOP instance named last.
pub open spec fn spec_store_rq(sop_class: Seq<char>, sop_instance: Seq<char>) -> Seq<AttrV> {
    seq![
        AttrV { group: 0x0000, element: 0x0002, value: AttrValueV::Uid(sop_class) },
        AttrV { group: 0x0000, element: 0x0100, value: AttrValueV::UShort(C_STORE_RQ) },
        AttrV { group: 0x0000, element: 0x0110, value: AttrValueV::UShort(2) },
        AttrV { group: 0x0000, element: 0x0800, value: AttrValueV::UShort(0x0000) },
        AttrV { group: 0x0000, element: 0x1000, value: AttrValueV::Uid(sop_instance) },
    ]
}

/// Builds the C-STORE-RQ command set for the given document identifiers.
pub fn store_rq(sop_class: &str, sop_instance: &str) -> (r: AttrSet)
    ensures
        r@ == spec_store_rq(sop_class@, sop_instance@),
{
    let mut s = AttrSet::new_empty();
    s.push_uid(0x0000, 0x0002, String::from_str(sop_class));
    s.push_ushort(0x0000, 0x0100, C_STORE_RQ);
    s.push_ushort(0x0000, 0x0110, 2);
    s.push_ushort(0x0000, 0x0800, 0x0000);
    s.push_uid(0x0000, 0x1000, String::from_str(sop_instance));
    proof {
        assert(s@ =~= spec_store_rq(sop_class@, sop_instance@));
    }
    s
}

/// The C-FIND-RQ command set: Study Root FIND abstract syntax, C-FIND-RQ
/// command field, message id 1, medium priority, the query identifier
/// following as a data set.
pub open spec fn spec_find_rq() -> Seq<AttrV> {
    seq![
        AttrV { group: 0x0000, element: 0x0002, value: AttrValueV::Uid(spec_study_root_find_uid()) },
        AttrV { group: 0x0000, element: 0x0100, value: AttrValueV::UShort(C_FIND_RQ) },
        AttrV { group: 0x0000, element: 0x0110, value: AttrValueV::UShort(1) },
        AttrV { group: 0x0000, element: 0x0700, value: AttrValueV::UShort(0x0000) },
        AttrV { group: 0x0000, element: 0x0800, value: AttrValueV::UShort(0x0000) },
    ]
}

/// Builds the C-FIND-RQ command set.
pub fn find_rq() -> (r: AttrSet)
    ensures
        r@ == spec_find_rq(),
{
    let mut s = AttrSet::new_empty();
    s.push_uid(0x0000, 0x0002, String::from_str(study_root_find_uid()));
    s.push_ushort(0x0000, 0x0100, C_FIND_RQ);
    s.push_ushort(0x0000, 0x0110, 1);
    s.push_ushort(0x0000, 0x0700, 0x0000);
    s.push_ushort(0x0000, 0x0800, 0x0000);
    proof {
        assert(s@ =~= spec_find_rq());
    }
    s
}

/// The minimal C-FIND query identifier: a wildcard Patient Name and an
/// empty Study Instance UID as return keys.
pub open spec fn spec_find_identifier() -> Seq<AttrV> {
    seq![
        AttrV { group: 0x0010, element: 0x0010, value: AttrValueV::PersonName("*"@) },
        AttrV { group: 0x0020, element: 0x000D, value: AttrValueV::Uid(""@) },
    ]
}

/// Builds the minimal C-FIND query identifier.
pub fn find_identifier() -> (r: AttrSet)
    ensures
        r@ == spec_find_identifier(),
{
    let mut s = AttrSet::new_empty();
    s.push_person_name(0x0010, 0x0010, String::from_str("*"));
    s.push_uid(0x0020, 0x000D, String::from_str(""));
    proof {
        assert(s@ =~= spec_find_identifier());
    }
    s
}

/// What a decoded response command says: its Status, and whether a data
/// set message follows it.
#[derive(Clone, Copy, PartialEq, Eq, Debug)]
pub struct ResponseSummary {
    pub status: u16,
    pub has_data_set: bool,
}

/// The Command Data Set Type of a response, with the protocol's default:
/// a response without the attribute carries no data set.
pub open spec fn spec_data_set_type(attrs: Seq<AttrV>) -> u16 {
    match spec_first_uint(attrs, 0x0000, 0x0800) {
        Some(v) => v,
        None => NO_DATA_SET,
    }
}

/// The classification of a response command: its Status value and the
/// data-set flag, or nothing when the Status attribute is absent.
pub open spec fn spec_classify(attrs: Seq<AttrV>) -> Option<ResponseSummary> {
    match spec_first_uint(attrs, 0x0000, 0x0900) {
        Some(st) => Some(
            ResponseSummary { status: st, has_data_set: spec_data_set_type(attrs) != NO_DATA_SET },
        ),
        None => None,
    }
}

/// Classifies a decoded response command: extracts the Status and whether
/// a data set follows (Command Data Set Type other than the "none"
/// marker). A response without a Status violates the protocol and is
/// fatal for the exchange.
pub fn classify_response(cmd: &AttrSet) -> (r: Result<ResponseSummary, ExchangeError>)
    ensures
        match r {
            Ok(summary) => spec_classify(cmd@) == Some(summary),
            Err(e) => spec_classify(cmd@) is None && e is MissingStatus,
        },
{
    match cmd.first_uint(0x0000, 0x0900) {
        Some(status) => {
            let data_set_type = match cmd.first_uint(0x0000, 0x0800) {
                Some(v) => v,
                None => NO_DATA_SET,
            };
            Ok(ResponseSummary { status, has_data_set: data_set_type != NO_DATA_SET })
        },
        None => Err(ExchangeError::MissingStatus),
    }
}

} // verus!
