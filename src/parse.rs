//! Decoding a whole options region, and a single record.
use vstd::prelude::*;
use vstd::slice::slice_subrange;
use crate::framing::{
    complete, first_frame, frames, lemma_filter_single, lemma_filter_take_next,
    lemma_frames_concat, lemma_frames_end, lemma_frames_record, lemma_frames_truncated,
    next_frame, record_bytes, record_views, split_records, END, PAD,
};
use crate::options::{decode_option, option_accepts, option_decodes, DhcpOption};

verus! {

/// The records of an options region that the catalog accepts, in order, up
/// to where the scan stops.
pub open spec fn option_records(b: Seq<u8>) -> Seq<(u8, Seq<u8>)> {
    frames(b, true).filter(|f: (u8, Seq<u8>)| option_accepts(f.0, f.1))
}

/// `l` is what an options region decodes to: one option for each accepted
/// record, in order.
pub open spec fn options_of(b: Seq<u8>, l: Seq<DhcpOption>) -> bool {
    &&& l.len() == option_records(b).len()
    &&& forall|i: int|
        0 <= i < l.len() ==> option_decodes(
            #[trigger] option_records(b)[i].0,
            option_records(b)[i].1,
            l[i],
        )
}

/// Decodes an options region into its options, in wire order.
///
/// This never fails. Records with an unknown tag or a malformed value are
/// skipped and decoding goes on after them; End ends the region; a record
/// whose length byte is missing or whose declared length runs past the end
/// ends the scan, and only the options before it are returned.
pub fn parse(bytes: &[u8]) -> (r: Vec<DhcpOption>)
    ensures
        options_of(bytes@, r@),
{
    let records = split_records(bytes, true);
    let ghost fs = record_views(records@);
    let ghost keep = |f: (u8, Seq<u8>)| option_accepts(f.0, f.1);
    let mut out: Vec<DhcpOption> = Vec::new();
    let mut i: usize = 0;
    assert(fs.take(0).filter(keep) =~= Seq::<(u8, Seq<u8>)>::empty()) by {
        reveal(Seq::filter);
    }
    while i < records.len()
        invariant
            fs == record_views(records@),
            fs == frames(bytes@, true),
            keep == (|f: (u8, Seq<u8>)| option_accepts(f.0, f.1)),
            i <= records@.len(),
            out@.len() == fs.take(i as int).filter(keep).len(),
            forall|k: int|
                0 <= k < out@.len() ==> option_decodes(
                    #[trigger] fs.take(i as int).filter(keep)[k].0,
                    fs.take(i as int).filter(keep)[k].1,
                    out@[k],
                ),
        decreases records@.len() - i,
    {
        let record = &records[i];
        proof {
            lemma_filter_take_next(fs, keep, i as int);
        }
        let ghost before = out@;
        match decode_option(record.tag, record.value.as_slice()) {
            Some(o) => {
                out.push(o);
            },
            None => {},
        }
        proof {
            let next = fs.take(i + 1).filter(keep);
            assert forall|k: int| 0 <= k < out@.len() implies option_decodes(
                #[trigger] next[k].0,
                next[k].1,
                out@[k],
            ) by {
                if k < before.len() {
                    assert(next[k] == fs.take(i as int).filter(keep)[k]);
                }
            }
        }
        i = i + 1;
    }
    assert(fs.take(i as int) =~= fs);
    out
}

/// Decodes the record at the front of `bytes`, with the number of bytes it
/// takes. `None` where no whole record is there, or where the catalog does
/// not accept it.
pub fn dhcp_option(bytes: &[u8]) -> (r: Option<(DhcpOption, usize)>)
    ensures
        match first_frame(bytes@, true) {
            None => r is None,
            Some((tag, v, n)) => if option_accepts(tag, v) {
                r matches Some((o, m)) && m == n && option_decodes(tag, v, o)
            } else {
                r is None
            },
        },
{
    assert(bytes@.skip(0) =~= bytes@);
    match next_frame(bytes, 0, true) {
        None => None,
        Some((tag, start, end)) => match decode_option(tag, slice_subrange(bytes, start, end)) {
            Some(o) => Some((o, end)),
            None => None,
        },
    }
}

/// Decodes a Relay Agent Information record (tag 82) at the front of
/// `bytes`, with the number of bytes it takes; `None` for any other tag, or
/// where the record is cut short.
pub fn relay_agent_information_option_rfc3046(bytes: &[u8]) -> (r: Option<(DhcpOption, usize)>)
    ensures
        r is Some <==> bytes@.len() >= 2 && bytes@[0] == 82 && bytes@.len() >= 2 + bytes@[1],
        r matches Some((o, m)) ==> {
            &&& o is RelayAgentInformation
            &&& m == 2 + bytes@[1]
            &&& option_decodes(82, bytes@.subrange(2, m as int), o)
        },
{
    if bytes.len() == 0 || bytes[0] != 82 {
        return None;
    }
    dhcp_option(bytes)
}

/// Decoding distributes over a region that the scan runs through to its end:
/// the options of `a + b` are those of `a`, then those of `b`.
pub proof fn lemma_stream_concat(a: Seq<u8>, b: Seq<u8>)
    requires
        complete(a, true),
    ensures
        option_records(a + b) == option_records(a) + option_records(b),
{
    lemma_frames_concat(a, b, true);
    Seq::filter_distributes_over_add(
        frames(a, true),
        frames(b, true),
        |f: (u8, Seq<u8>)| option_accepts(f.0, f.1),
    );
}

/// End is the last option decoded: the bytes after it are never read.
pub proof fn lemma_end_ends_stream(a: Seq<u8>, tail: Seq<u8>)
    requires
        complete(a, true),
    ensures
        option_records(a + seq![END] + tail) == option_records(a).push((END, Seq::<u8>::empty())),
{
    let keep = |f: (u8, Seq<u8>)| option_accepts(f.0, f.1);
    assert(a + seq![END] + tail =~= a + (seq![END] + tail));
    lemma_stream_concat(a, seq![END] + tail);
    lemma_frames_end(tail);
    lemma_filter_single((END, Seq::<u8>::empty()), keep);
    assert(option_records(a) + seq![(END, Seq::<u8>::empty())] =~= option_records(a).push(
        (END, Seq::<u8>::empty()),
    ));
}

/// A record whose length byte is missing, or whose declared length runs past
/// the end, ends decoding: only the options before it are returned, whatever
/// the declared length (254 and 255 included).
pub proof fn lemma_truncated_record_ends_stream(a: Seq<u8>, t: Seq<u8>)
    requires
        complete(a, true),
        t.len() > 0,
        t[0] != PAD && t[0] != END,
        t.len() < 2 || t.len() < 2 + t[1],
    ensures
        option_records(a + t) == option_records(a),
{
    lemma_stream_concat(a, t);
    lemma_frames_truncated(t, true);
    reveal(Seq::filter);
    assert(option_records(t) =~= Seq::<(u8, Seq<u8>)>::empty());
    assert(option_records(a) + option_records(t) =~= option_records(a));
}

/// A whole record that the catalog does not accept (an unknown tag, or a
/// value of the wrong shape) is skipped, and decoding goes on after it.
pub proof fn lemma_rejected_record_skipped(a: Seq<u8>, tag: u8, v: Seq<u8>, rest: Seq<u8>)
    requires
        complete(a, true),
        tag != PAD && tag != END,
        v.len() <= 255,
        !option_accepts(tag, v),
    ensures
        option_records(a + record_bytes(tag, v) + rest) == option_records(a + rest),
{
    let keep = |f: (u8, Seq<u8>)| option_accepts(f.0, f.1);
    assert(a + record_bytes(tag, v) + rest =~= a + (record_bytes(tag, v) + rest));
    lemma_stream_concat(a, record_bytes(tag, v) + rest);
    lemma_stream_concat(a, rest);
    lemma_frames_record(tag, v, rest, true);
    Seq::filter_distributes_over_add(seq![(tag, v)], frames(rest, true), keep);
    lemma_filter_single((tag, v), keep);
    assert(option_records(record_bytes(tag, v) + rest) =~= option_records(rest));
}

/// A whole record that the catalog accepts is decoded in its place, and
/// decoding goes on after it.
pub proof fn lemma_accepted_record_kept(a: Seq<u8>, tag: u8, v: Seq<u8>, rest: Seq<u8>)
    requires
        complete(a, true),
        tag != PAD && tag != END,
        v.len() <= 255,
        option_accepts(tag, v),
    ensures
        option_records(a + record_bytes(tag, v) + rest) == option_records(a) + seq![(tag, v)]
            + option_records(rest),
{
    let keep = |f: (u8, Seq<u8>)| option_accepts(f.0, f.1);
    assert(a + record_bytes(tag, v) + rest =~= a + (record_bytes(tag, v) + rest));
    lemma_stream_concat(a, record_bytes(tag, v) + rest);
    lemma_frames_record(tag, v, rest, true);
    Seq::filter_distributes_over_add(seq![(tag, v)], frames(rest, true), keep);
    lemma_filter_single((tag, v), keep);
    assert(option_records(a) + (seq![(tag, v)] + option_records(rest)) =~= option_records(a)
        + seq![(tag, v)] + option_records(rest));
}

} // verus!
