//! Relay Agent Information: the sub-options carried as the value of the
//! top-level option 82.
use vstd::prelude::*;
use vstd::utf8::{decode_utf8, valid_utf8};
use crate::framing::{
    complete, frames, lemma_filter_single, lemma_filter_take_next, lemma_frames_concat,
    lemma_frames_record, lemma_frames_truncated, record_bytes, record_views, split_records,
};
use crate::wire::{
    be_i32, ipv4_at, read_bytes, read_i32, read_ipv4, read_text, read_u8, Ipv4Address,
};

verus! {

/// One sub-option of Relay Agent Information.
#[derive(Debug, Clone, PartialEq, Eq)]
pub enum RelayAgentInformationSubOption {
    AgentCircuitID(Vec<u8>),
    AgentRemoteID(Vec<u8>),
    DOCSISDeviceClass(i32),
    LinkSelection(Ipv4Address),
    SubscriberID(String),
    RADIUSattributes(Vec<u8>),
    Authentication(Vec<u8>),
    VendorSpecificInformation(Vec<u8>),
    RelayAgentFlags(u8),
    ServerIdentifierOverride(i32),
    DHCPv4VirtualSubnetSelection(Vec<u8>),
    DHCPv4VirtualSubnetSelectionControl(Vec<u8>),
}

use RelayAgentInformationSubOption::{
    AgentCircuitID, AgentRemoteID, Authentication, DHCPv4VirtualSubnetSelection,
    DHCPv4VirtualSubnetSelectionControl, DOCSISDeviceClass, LinkSelection, RADIUSattributes,
    RelayAgentFlags, ServerIdentifierOverride, SubscriberID, VendorSpecificInformation,
};

/// The sub-option catalog accepts a record with this tag and value.
pub open spec fn sub_option_accepts(tag: u8, v: Seq<u8>) -> bool {
    match tag {
        1 | 2 | 7 | 8 | 9 | 151 | 152 => true,
        4 | 5 | 11 => v.len() == 4,
        6 => valid_utf8(v),
        10 => v.len() == 1,
        _ => false,
    }
}

/// `o` is the sub-option that the record with this tag and value stands for.
pub open spec fn sub_option_decodes(tag: u8, v: Seq<u8>, o: RelayAgentInformationSubOption) -> bool {
    match o {
        AgentCircuitID(d) => tag == 1 && d@ == v,
        AgentRemoteID(d) => tag == 2 && d@ == v,
        DOCSISDeviceClass(x) => tag == 4 && v.len() == 4 && x as int == be_i32(v),
        LinkSelection(a) => tag == 5 && v.len() == 4 && ipv4_at(a, v, 0),
        SubscriberID(s) => tag == 6 && valid_utf8(v) && s@ == decode_utf8(v),
        RADIUSattributes(d) => tag == 7 && d@ == v,
        Authentication(d) => tag == 8 && d@ == v,
        VendorSpecificInformation(d) => tag == 9 && d@ == v,
        RelayAgentFlags(x) => tag == 10 && v.len() == 1 && x == v[0],
        ServerIdentifierOverride(x) => tag == 11 && v.len() == 4 && x as int == be_i32(v),
        DHCPv4VirtualSubnetSelection(d) => tag == 151 && d@ == v,
        DHCPv4VirtualSubnetSelectionControl(d) => tag == 152 && d@ == v,
    }
}

/// Decodes one sub-option record from its tag and value.
pub fn decode_sub_option(tag: u8, v: &[u8]) -> (r: Option<RelayAgentInformationSubOption>)
    ensures
        r is Some <==> sub_option_accepts(tag, v@),
        r matches Some(o) ==> sub_option_decodes(tag, v@, o),
{
    match tag {
        1 => Some(AgentCircuitID(read_bytes(v))),
        2 => Some(AgentRemoteID(read_bytes(v))),
        4 => match read_i32(v) {
            Some(x) => Some(DOCSISDeviceClass(x)),
            None => None,
        },
        5 => match read_ipv4(v) {
            Some(a) => Some(LinkSelection(a)),
            None => None,
        },
        6 => match read_text(v) {
            Some(s) => Some(SubscriberID(s)),
            None => None,
        },
        7 => Some(RADIUSattributes(read_bytes(v))),
        8 => Some(Authentication(read_bytes(v))),
        9 => Some(VendorSpecificInformation(read_bytes(v))),
        10 => match read_u8(v) {
            Some(x) => Some(RelayAgentFlags(x)),
            None => None,
        },
        11 => match read_i32(v) {
            Some(x) => Some(ServerIdentifierOverride(x)),
            None => None,
        },
        151 => Some(DHCPv4VirtualSubnetSelection(read_bytes(v))),
        152 => Some(DHCPv4VirtualSubnetSelectionControl(read_bytes(v))),
        _ => None,
    }
}

/// The records of a sub-option stream that the catalog accepts, in order.
/// The stream has no Pad or End: every record carries a length.
pub open spec fn sub_option_records(b: Seq<u8>) -> Seq<(u8, Seq<u8>)> {
    frames(b, false).filter(|f: (u8, Seq<u8>)| sub_option_accepts(f.0, f.1))
}

/// `l` is what a sub-option stream decodes to: one sub-option for each
/// accepted record, in order.
pub open spec fn sub_options_of(b: Seq<u8>, l: Seq<RelayAgentInformationSubOption>) -> bool {
    &&& l.len() == sub_option_records(b).len()
    &&& forall|i: int|
        0 <= i < l.len() ==> sub_option_decodes(
            #[trigger] sub_option_records(b)[i].0,
            sub_option_records(b)[i].1,
            l[i],
        )
}

/// Decodes a sub-option stream. Unknown and malformed records are skipped; a
/// record cut short by the end of the stream ends the scan.
pub fn parse_sub_options(bytes: &[u8]) -> (r: Vec<RelayAgentInformationSubOption>)
    ensures
        sub_options_of(bytes@, r@),
{
    let records = split_records(bytes, false);
    let ghost fs = record_views(records@);
    let ghost keep = |f: (u8, Seq<u8>)| sub_option_accepts(f.0, f.1);
    let mut out: Vec<RelayAgentInformationSubOption> = Vec::new();
    let mut i: usize = 0;
    assert(fs.take(0).filter(keep) =~= Seq::<(u8, Seq<u8>)>::empty()) by {
        reveal(Seq::filter);
    }
    while i < records.len()
        invariant
            fs == record_views(records@),
            fs == frames(bytes@, false),
            keep == (|f: (u8, Seq<u8>)| sub_option_accepts(f.0, f.1)),
            i <= records@.len(),
            out@.len() == fs.take(i as int).filter(keep).len(),
            forall|k: int|
                0 <= k < out@.len() ==> sub_option_decodes(
                    #[trigger] fs.take(i as int).filter(keep)[k].0,
                    fs.take(i as int).filter(keep)[k].1,
                    out@[k],
                ),
        decreases records@.len() - i,
    {
        let record = &records[i];
        proof {
            lemma_filter_take_next(fs, keep, i as int);
        }
        let ghost before = out@;
        match decode_sub_option(record.tag, record.value.as_slice()) {
            Some(o) => {
                out.push(o);
            },
            None => {},
        }
        proof {
            let next = fs.take(i + 1).filter(keep);
            assert forall|k: int| 0 <= k < out@.len() implies sub_option_decodes(
                #[trigger] next[k].0,
                next[k].1,
                out@[k],
            ) by {
                if k < before.len() {
                    assert(next[k] == fs.take(i as int).filter(keep)[k]);
                }
            }
        }
        i = i + 1;
    }
    assert(fs.take(i as int) =~= fs);
    out
}

/// Sub-option decoding distributes over a stream that the scan runs through
/// to its end: the sub-options of `a + b` are those of `a`, then those of `b`.
pub proof fn lemma_sub_stream_concat(a: Seq<u8>, b: Seq<u8>)
    requires
        complete(a, false),
    ensures
        sub_option_records(a + b) == sub_option_records(a) + sub_option_records(b),
{
    lemma_frames_concat(a, b, false);
    Seq::filter_distributes_over_add(
        frames(a, false),
        frames(b, false),
        |f: (u8, Seq<u8>)| sub_option_accepts(f.0, f.1),
    );
}

/// A whole sub-option record that the catalog does not accept is skipped,
/// and decoding goes on after it.
pub proof fn lemma_sub_rejected_record_skipped(a: Seq<u8>, tag: u8, v: Seq<u8>, rest: Seq<u8>)
    requires
        complete(a, false),
        v.len() <= 255,
        !sub_option_accepts(tag, v),
    ensures
        sub_option_records(a + record_bytes(tag, v) + rest) == sub_option_records(a + rest),
{
    let keep = |f: (u8, Seq<u8>)| sub_option_accepts(f.0, f.1);
    assert(a + record_bytes(tag, v) + rest =~= a + (record_bytes(tag, v) + rest));
    lemma_sub_stream_concat(a, record_bytes(tag, v) + rest);
    lemma_sub_stream_concat(a, rest);
    lemma_frames_record(tag, v, rest, false);
    Seq::filter_distributes_over_add(seq![(tag, v)], frames(rest, false), keep);
    lemma_filter_single((tag, v), keep);
    assert(sub_option_records(record_bytes(tag, v) + rest) =~= sub_option_records(rest));
}

/// A sub-option record whose length byte is missing, or whose declared
/// length runs past the end, ends decoding: only the sub-options before it
/// are returned.
pub proof fn lemma_sub_truncated_record_ends_stream(a: Seq<u8>, t: Seq<u8>)
    requires
        complete(a, false),
        t.len() > 0,
        t.len() < 2 || t.len() < 2 + t[1],
    ensures
        sub_option_records(a + t) == sub_option_records(a),
{
    lemma_sub_stream_concat(a, t);
    lemma_frames_truncated(t, false);
    reveal(Seq::filter);
    assert(sub_option_records(t) =~= Seq::<(u8, Seq<u8>)>::empty());
    assert(sub_option_records(a) + sub_option_records(t) =~= sub_option_records(a));
}

} // verus!
