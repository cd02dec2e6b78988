//! What each participant of the key generation records: the commitments and
//! shares it generated and received, complaints and justifications, and its
//! derived keys; and how each step of the protocol updates those records.
//!
//! The records live in the files `output/participant-<id>/{generated,received,derived}.json`;
//! reading and writing them is the caller's part.

use crate::bignum::{decimal_string, ubig_to_hex, usize_to_decimal, hex_string, UBig};
use crate::strmap::{StrMap, StrSet};
use crate::text::{hex_digits, hex_to_biguint, hex_value, radix_parse_error};
use vstd::prelude::*;

verus! {

/// The two halves `s` and `u` of a share, in hexadecimal.
#[derive(Clone, Debug)]
pub struct ParticipantShare {
    pub s: String,
    pub u: String,
}

impl ParticipantShare {
    /// A copy of this share.
    pub fn copy(&self) -> (r: ParticipantShare)
        ensures
            r.s@ == self.s@,
            r.u@ == self.u@,
    {
        ParticipantShare { s: self.s.clone(), u: self.u.clone() }
    }
}

/// What a participant generated as a dealer.
#[derive(Debug)]
pub struct ParticipantGenerated {
    pub id: usize,
    pub pedersen_commitments: Vec<String>,
    pub feldman_commitments: Vec<String>,
    pub shares_to: StrMap<ParticipantShare>,
}

/// What a participant received from the dealers, keyed by dealer id.
#[derive(Debug)]
pub struct ParticipantReceived {
    pub pedersen_commitments: StrMap<Vec<String>>,
    pub feldman_commitments: StrMap<Vec<String>>,
    pub shares_from: StrMap<ParticipantShare>,
    /// Complaints and justifications, keyed by the sender's id.
    pub data: Option<StrMap<ParticipantSent>>,
}

/// The complaints a participant sent, and the justifications it answered with.
#[derive(Debug)]
pub struct ParticipantSent {
    pub complaint_pedersen: StrSet,
    /// The shares revealed, keyed by the complaining participant.
    pub justification: Option<StrMap<ParticipantShare>>,
}

/// What a participant derived: its key share, the public key and its complaints.
#[derive(Debug)]
pub struct ParticipantDerived {
    pub share_key: String,
    pub public_key: Option<String>,
    pub complaint_pedersen: Option<StrSet>,
}

/// A participant's record files.
pub struct Output {
    id: usize,
    generated_filepath: String,
    received_filepath: String,
    derived_filepath: String,
}

/// The path `output/participant-<id>/<name>`.
pub open spec fn participant_path(id: usize, name: Seq<char>) -> Seq<char> {
    "output/participant-"@ + decimal_string(id as nat) + "/"@ + name
}

impl ParticipantReceived {
    /// The records are well formed.
    pub open spec fn wf(&self) -> bool {
        &&& self.pedersen_commitments.wf()
        &&& self.feldman_commitments.wf()
        &&& self.shares_from.wf()
        &&& (self.data matches Some(d) ==> d.wf() && forall|k: Seq<char>|
            #[trigger] d.map().dom().contains(k) ==> d.map()[k].wf())
    }

    /// The records of a participant that has received nothing.
    pub fn empty() -> (r: ParticipantReceived)
        ensures
            r.wf(),
            r.pedersen_commitments.map().dom().len() == 0,
            r.feldman_commitments.map().dom().len() == 0,
            r.shares_from.map().dom().len() == 0,
            r.data is None,
    {
        ParticipantReceived {
            pedersen_commitments: StrMap::new(),
            feldman_commitments: StrMap::new(),
            shares_from: StrMap::new(),
            data: None,
        }
    }
}

impl ParticipantSent {
    /// The justification map, when present, is well formed.
    pub open spec fn wf(&self) -> bool {
        self.justification matches Some(j) ==> j.wf()
    }
}

impl ParticipantDerived {
    /// The records of a participant that has derived nothing.
    pub fn empty() -> (r: ParticipantDerived)
        ensures
            r.share_key@ == Seq::<char>::empty(),
            r.public_key is None,
            r.complaint_pedersen is None,
    {
        ParticipantDerived { share_key: String::new(), public_key: None, complaint_pedersen: None }
    }
}

/// The complaints held in an optional set.
pub open spec fn complaints(s: Option<StrSet>) -> Set<Seq<char>> {
    match s {
        Some(c) => c.set(),
        None => Set::empty(),
    }
}

impl Output {
    pub closed spec fn spec_id(&self) -> usize {
        self.id
    }

    pub closed spec fn spec_generated_filepath(&self) -> Seq<char> {
        self.generated_filepath@
    }

    pub closed spec fn spec_received_filepath(&self) -> Seq<char> {
        self.received_filepath@
    }

    pub closed spec fn spec_derived_filepath(&self) -> Seq<char> {
        self.derived_filepath@
    }

    /// The record files of participant `id`.
    pub fn new(id: usize) -> (r: Output)
        ensures
            r.spec_id() == id,
            r.spec_generated_filepath() == participant_path(id, "generated.json"@),
            r.spec_received_filepath() == participant_path(id, "received.json"@),
            r.spec_derived_filepath() == participant_path(id, "derived.json"@),
    {
        let dec = usize_to_decimal(id);
        let mut dir = String::from_str("output/participant-");
        dir.append(dec.as_str());
        dir.append("/");
        let generated_filepath = dir.clone().concat("generated.json");
        let received_filepath = dir.clone().concat("received.json");
        let derived_filepath = dir.concat("derived.json");
        Output { id, generated_filepath, received_filepath, derived_filepath }
    }

    /// This participant's id.
    pub fn id(&self) -> (r: usize)
        ensures
            r == self.spec_id(),
    {
        self.id
    }

    /// The path of the file of what this participant generated.
    pub fn generated_filepath(&self) -> (r: &String)
        ensures
            r@ == self.spec_generated_filepath(),
    {
        &self.generated_filepath
    }

    /// The path of the file of what this participant received.
    pub fn received_filepath(&self) -> (r: &String)
        ensures
            r@ == self.spec_received_filepath(),
    {
        &self.received_filepath
    }

    /// The path of the file of what this participant derived.
    pub fn derived_filepath(&self) -> (r: &String)
        ensures
            r@ == self.spec_derived_filepath(),
    {
        &self.derived_filepath
    }

    /// Records, in place of any earlier record, the commitments and the share
    /// received from dealer `from_participant_id`.
    pub fn append_received(
        &self,
        received: &mut ParticipantReceived,
        from_participant_id: String,
        pedersent_commitments: Vec<String>,
        feldman_commitments: Vec<String>,
        shares: ParticipantShare,
    )
        requires
            old(received).wf(),
        ensures
            final(received).wf(),
            received_appended(
                *old(received),
                *final(received),
                from_participant_id@,
                pedersent_commitments,
                feldman_commitments,
                shares,
            ),
    {
        received.shares_from.insert(from_participant_id.clone(), shares);
        received.pedersen_commitments.insert(from_participant_id.clone(), pedersent_commitments);
        received.feldman_commitments.insert(from_participant_id, feldman_commitments);
    }

    /// Adds `against` to the participants this one complains about.
    pub fn save_complaint_pedersen(&self, derived: &mut ParticipantDerived, against: String)
        ensures
            final(derived).complaint_pedersen is Some,
            complaints(final(derived).complaint_pedersen) == complaints(
                old(derived).complaint_pedersen,
            ).insert(against@),
            final(derived).share_key == old(derived).share_key,
            final(derived).public_key == old(derived).public_key,
    {
        let mut set = match derived.complaint_pedersen.take() {
            Some(s) => s,
            None => StrSet::new(),
        };
        set.insert(against);
        derived.complaint_pedersen = Some(set);
    }

    /// Records the key share, in hexadecimal.
    pub fn write_share_key(&self, derived: &mut ParticipantDerived, value: &UBig)
        ensures
            final(derived).share_key@ == seq!['0', 'x'] + hex_string(value@),
            final(derived).public_key == old(derived).public_key,
            final(derived).complaint_pedersen == old(derived).complaint_pedersen,
    {
        derived.share_key = ubig_to_hex(value);
    }

    /// Reads back the recorded key share.
    pub fn read_share_key(&self, derived: &ParticipantDerived) -> (r: Result<UBig, String>)
        ensures
            r is Ok <==> radix_parse_error(hex_digits(derived.share_key@), 16) is None,
            r matches Err(e) ==> radix_parse_error(hex_digits(derived.share_key@), 16) == Some(e@),
            r matches Ok(v) ==> v@ == hex_value(derived.share_key@),
    {
        hex_to_biguint(derived.share_key.as_str())
    }

    /// Records the public key, in hexadecimal.
    pub fn write_public_key(&self, derived: &mut ParticipantDerived, value: &UBig)
        ensures
            final(derived).public_key matches Some(k) && k@ == seq!['0', 'x'] + hex_string(
                value@,
            ),
            final(derived).share_key == old(derived).share_key,
            final(derived).complaint_pedersen == old(derived).complaint_pedersen,
    {
        derived.public_key = Some(ubig_to_hex(value));
    }

    /// Records that participant `from` complains about `against`.
    pub fn received_complaint_pedersen(
        &self,
        received: &mut ParticipantReceived,
        from: usize,
        against: String,
    )
        requires
            old(received).wf(),
        ensures
            final(received).wf(),
            received_complaint(*old(received), *final(received), decimal_string(from as nat), against@),
    {
        let key = usize_to_decimal(from);
        let mut data = match received.data.take() {
            Some(d) => d,
            None => StrMap::new(),
        };
        let ghost before = data.map();
        let mut sent = match data.take(&key) {
            Some(s) => s,
            None => ParticipantSent { complaint_pedersen: StrSet::new(), justification: None },
        };
        let ghost old_sent = sent;
        sent.complaint_pedersen.insert(against);
        data.insert(key, sent);
        assert(data.map() =~= before.insert(key@, sent));
        received.data = Some(data);
    }

    /// Sends to participant `to` this participant's complaint about `against`:
    /// the receiver's records, `receiver_received`, are updated, and the
    /// receiver's files are handed back.
    pub fn send_complaint_pedersen(
        &self,
        to: usize,
        receiver_received: &mut ParticipantReceived,
        against: String,
    ) -> (r: Output)
        requires
            old(receiver_received).wf(),
        ensures
            r.spec_id() == to,
            r.spec_received_filepath() == participant_path(to, "received.json"@),
            r.spec_generated_filepath() == participant_path(to, "generated.json"@),
            r.spec_derived_filepath() == participant_path(to, "derived.json"@),
            final(receiver_received).wf(),
            received_complaint(
                *old(receiver_received),
                *final(receiver_received),
                decimal_string(self.spec_id() as nat),
                against@,
            ),
    {
        let receiver = Output::new(to);
        receiver.received_complaint_pedersen(receiver_received, self.id, against);
        receiver
    }

    /// Records that participant `from` answered the complaint of `complaintor`
    /// by revealing `share`.
    pub fn receive_justify_commitment(
        &self,
        received: &mut ParticipantReceived,
        from: usize,
        complaintor: String,
        share: ParticipantShare,
    )
        requires
            old(received).wf(),
        ensures
            final(received).wf(),
            received_justification(
                *old(received),
                *final(received),
                decimal_string(from as nat),
                complaintor@,
                share,
            ),
    {
        let key = usize_to_decimal(from);
        let mut data = match received.data.take() {
            Some(d) => d,
            None => StrMap::new(),
        };
        let ghost before = data.map();
        let mut sent = match data.take(&key) {
            Some(s) => s,
            None => ParticipantSent {
                complaint_pedersen: StrSet::new(),
                justification: Some(StrMap::new()),
            },
        };
        let mut justification = match sent.justification.take() {
            Some(j) => j,
            None => StrMap::new(),
        };
        justification.insert(complaintor, share);
        sent.justification = Some(justification);
        data.insert(key, sent);
        assert(data.map() =~= before.insert(key@, sent));
        received.data = Some(data);
    }

    /// Sends to participant `to` the share revealed in answer to the
    /// complaint of `complaintor`: the receiver's records are updated, and
    /// the receiver's files are handed back.
    pub fn send_justification(
        &self,
        to: usize,
        receiver_received: &mut ParticipantReceived,
        complaintor: String,
        shares: ParticipantShare,
    ) -> (r: Output)
        requires
            old(receiver_received).wf(),
        ensures
            r.spec_id() == to,
            r.spec_received_filepath() == participant_path(to, "received.json"@),
            r.spec_generated_filepath() == participant_path(to, "generated.json"@),
            r.spec_derived_filepath() == participant_path(to, "derived.json"@),
            final(receiver_received).wf(),
            received_justification(
                *old(receiver_received),
                *final(receiver_received),
                decimal_string(self.spec_id() as nat),
                complaintor@,
                shares,
            ),
    {
        let receiver = Output::new(to);
        receiver.receive_justify_commitment(receiver_received, self.id, complaintor, shares);
        receiver
    }
}

/// The sent-data map of the records, empty when absent.
pub open spec fn sent_map(r: ParticipantReceived) -> Map<Seq<char>, ParticipantSent> {
    match r.data {
        Some(d) => d.map(),
        None => Map::empty(),
    }
}

/// `after` is `before` with the complaint of `from` about `against` added.
pub open spec fn received_complaint(
    before: ParticipantReceived,
    after: ParticipantReceived,
    from: Seq<char>,
    against: Seq<char>,
) -> bool {
    let b = sent_map(before);
    let a = sent_map(after);
    &&& after.data is Some
    &&& after.pedersen_commitments == before.pedersen_commitments
    &&& after.feldman_commitments == before.feldman_commitments
    &&& after.shares_from == before.shares_from
    &&& a.dom() == b.dom().insert(from)
    &&& forall|k: Seq<char>| #[trigger] b.dom().contains(k) && k != from ==> a[k] == b[k]
    &&& a[from].complaint_pedersen.set() == (if b.dom().contains(from) {
        b[from].complaint_pedersen.set()
    } else {
        Set::empty()
    }).insert(against)
    &&& a[from].justification == (if b.dom().contains(from) {
        b[from].justification
    } else {
        None
    })
}

/// `after` is `before` with the justification of `from` for `complaintor` recorded.
pub open spec fn received_justification(
    before: ParticipantReceived,
    after: ParticipantReceived,
    from: Seq<char>,
    complaintor: Seq<char>,
    share: ParticipantShare,
) -> bool {
    let b = sent_map(before);
    let a = sent_map(after);
    let old_just = if b.dom().contains(from) {
        match b[from].justification {
            Some(j) => j.map(),
            None => Map::empty(),
        }
    } else {
        Map::empty()
    };
    &&& after.data is Some
    &&& after.pedersen_commitments == before.pedersen_commitments
    &&& after.feldman_commitments == before.feldman_commitments
    &&& after.shares_from == before.shares_from
    &&& a.dom() == b.dom().insert(from)
    &&& forall|k: Seq<char>| #[trigger] b.dom().contains(k) && k != from ==> a[k] == b[k]
    &&& a[from].complaint_pedersen == (if b.dom().contains(from) {
        b[from].complaint_pedersen
    } else {
        a[from].complaint_pedersen
    })
    &&& (if b.dom().contains(from) {
        true
    } else {
        a[from].complaint_pedersen.set() == Set::<Seq<char>>::empty()
    })
    &&& a[from].justification matches Some(j) && j.map() == old_just.insert(complaintor, share)
}

/// `after` is `before` with the commitments and the share of dealer `from`
/// recorded in place of any earlier ones.
pub open spec fn received_appended(
    before: ParticipantReceived,
    after: ParticipantReceived,
    from: Seq<char>,
    pedersen: Vec<String>,
    feldman: Vec<String>,
    share: ParticipantShare,
) -> bool {
    &&& after.shares_from.map() == before.shares_from.map().insert(from, share)
    &&& after.pedersen_commitments.map() == before.pedersen_commitments.map().insert(from, pedersen)
    &&& after.feldman_commitments.map() == before.feldman_commitments.map().insert(from, feldman)
    &&& after.data == before.data
}

/// Two records of what a participant sent hold the same complaints and justifications.
pub open spec fn same_sent(a: ParticipantSent, b: ParticipantSent) -> bool {
    &&& a.complaint_pedersen.set() == b.complaint_pedersen.set()
    &&& match (a.justification, b.justification) {
        (Some(x), Some(y)) => x.map() == y.map(),
        (None, None) => true,
        _ => false,
    }
}

/// Two records hold the same data, as their file would read: the same maps,
/// whatever the order of their entries.
pub open spec fn same_records(a: ParticipantReceived, b: ParticipantReceived) -> bool {
    &&& a.pedersen_commitments.map() == b.pedersen_commitments.map()
    &&& a.feldman_commitments.map() == b.feldman_commitments.map()
    &&& a.shares_from.map() == b.shares_from.map()
    &&& (a.data is Some) == (b.data is Some)
    &&& sent_map(a).dom() == sent_map(b).dom()
    &&& forall|k: Seq<char>|
        #[trigger] sent_map(a).dom().contains(k) ==> same_sent(sent_map(a)[k], sent_map(b)[k])
}

/// Recording the same data of a dealer a second time changes nothing.
pub proof fn lemma_append_twice(
    r0: ParticipantReceived,
    r1: ParticipantReceived,
    r2: ParticipantReceived,
    from: Seq<char>,
    pedersen: Vec<String>,
    feldman: Vec<String>,
    share: ParticipantShare,
)
    requires
        received_appended(r0, r1, from, pedersen, feldman, share),
        received_appended(r1, r2, from, pedersen, feldman, share),
    ensures
        same_records(r1, r2),
{
    assert(r2.shares_from.map() =~= r1.shares_from.map());
    assert(r2.pedersen_commitments.map() =~= r1.pedersen_commitments.map());
    assert(r2.feldman_commitments.map() =~= r1.feldman_commitments.map());
}

/// Recording a complaint and recording a justification commute: in either
/// order they leave the same records, also when both come from the same
/// participant.
pub proof fn lemma_complaint_justification_commute(
    r0: ParticipantReceived,
    x1: ParticipantReceived,
    xy: ParticipantReceived,
    y1: ParticipantReceived,
    yx: ParticipantReceived,
    complaint_from: Seq<char>,
    against: Seq<char>,
    justification_from: Seq<char>,
    complaintor: Seq<char>,
    share: ParticipantShare,
)
    requires
        received_complaint(r0, x1, complaint_from, against),
        received_justification(x1, xy, justification_from, complaintor, share),
        received_justification(r0, y1, justification_from, complaintor, share),
        received_complaint(y1, yx, complaint_from, against),
    ensures
        same_records(xy, yx),
{
    let b = sent_map(r0);
    let x = sent_map(x1);
    let y = sent_map(y1);
    let a1 = sent_map(xy);
    let a2 = sent_map(yx);
    assert(a1.dom() =~= a2.dom());
    assert forall|k: Seq<char>| #[trigger] a1.dom().contains(k) implies same_sent(a1[k], a2[k]) by {
        if k != complaint_from && k != justification_from {
            assert(a1[k] == x[k] && x[k] == b[k]);
            assert(a2[k] == y[k] && y[k] == b[k]);
        } else if k == complaint_from && k != justification_from {
            assert(a1[k] == x[k]);
            if b.dom().contains(k) {
                assert(y[k] == b[k]);
            }
            assert(a2[k].complaint_pedersen.set() =~= x[k].complaint_pedersen.set());
        } else if k != complaint_from {
            if b.dom().contains(k) {
                assert(x[k] == b[k]);
            }
            assert(a2[k] == y[k]);
        } else {
            assert(a2[k].complaint_pedersen.set() =~= a1[k].complaint_pedersen.set());
        }
    }
}

/// The records that a complaint leaves are fixed by the complaint: so
/// sending a complaint to a participant updates its records exactly as its
/// own `received_complaint_pedersen` with the sender's id does.
pub proof fn lemma_complaint_determined(
    r0: ParticipantReceived,
    a1: ParticipantReceived,
    a2: ParticipantReceived,
    from: Seq<char>,
    against: Seq<char>,
)
    requires
        received_complaint(r0, a1, from, against),
        received_complaint(r0, a2, from, against),
    ensures
        same_records(a1, a2),
{
    let b = sent_map(r0);
    let m1 = sent_map(a1);
    let m2 = sent_map(a2);
    assert(m1.dom() =~= m2.dom());
    assert forall|k: Seq<char>| #[trigger] m1.dom().contains(k) implies same_sent(m1[k], m2[k]) by {
        if k != from {
            assert(m1[k] == b[k] && m2[k] == b[k]);
        }
    }
}

/// The records that a justification leaves are fixed by the justification:
/// so sending a justification to a participant updates its records exactly
/// as its own `receive_justify_commitment` with the sender's id does.
pub proof fn lemma_justification_determined(
    r0: ParticipantReceived,
    a1: ParticipantReceived,
    a2: ParticipantReceived,
    from: Seq<char>,
    complaintor: Seq<char>,
    share: ParticipantShare,
)
    requires
        received_justification(r0, a1, from, complaintor, share),
        received_justification(r0, a2, from, complaintor, share),
    ensures
        same_records(a1, a2),
{
    let b = sent_map(r0);
    let m1 = sent_map(a1);
    let m2 = sent_map(a2);
    assert(m1.dom() =~= m2.dom());
    assert forall|k: Seq<char>| #[trigger] m1.dom().contains(k) implies same_sent(m1[k], m2[k]) by {
        if k != from {
            assert(m1[k] == b[k] && m2[k] == b[k]);
        }
    }
}

} // verus!
