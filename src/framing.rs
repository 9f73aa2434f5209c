//! The record stream: how a buffer splits into tag-length-value records, and
//! where the scan stops.
use vstd::prelude::*;
use vstd::slice::slice_subrange;
use crate::wire::read_bytes;

verus! {

/// The one-byte Pad sentinel.
pub const PAD: u8 = 0;

/// The one-byte End sentinel.
pub const END: u8 = 255;

/// The record at the front of `b`: its tag, its value bytes and the number of
/// bytes it takes; `None` where the scan stops (no bytes left, no room for the
/// length byte, or a declared length that runs past the end of `b`).
/// With `sentinels`, Pad and End are records of one byte with no value.
pub open spec fn first_frame(b: Seq<u8>, sentinels: bool) -> Option<(u8, Seq<u8>, int)> {
    if b.len() == 0 {
        None
    } else if sentinels && (b[0] == PAD || b[0] == END) {
        Some((b[0], Seq::empty(), 1))
    } else if b.len() < 2 || b.len() < 2 + b[1] {
        None
    } else {
        Some((b[0], b.subrange(2, 2 + b[1]), 2 + b[1]))
    }
}

/// Every record of `b` as (tag, value), in order, up to where the scan stops;
/// with `sentinels`, an End record is the last one and what follows it is
/// never read.
pub open spec fn frames(b: Seq<u8>, sentinels: bool) -> Seq<(u8, Seq<u8>)>
    decreases b.len(),
{
    match first_frame(b, sentinels) {
        None => Seq::empty(),
        Some((tag, value, n)) => {
            if sentinels && tag == END {
                seq![(tag, value)]
            } else {
                seq![(tag, value)] + frames(b.skip(n), sentinels)
            }
        },
    }
}

/// One framed record, with its value copied out of the buffer.
#[derive(Debug, Clone, PartialEq, Eq)]
pub struct RawRecord {
    pub tag: u8,
    pub value: Vec<u8>,
}

impl View for RawRecord {
    type V = (u8, Seq<u8>);

    open spec fn view(&self) -> (u8, Seq<u8>) {
        (self.tag, self.value@)
    }
}

/// The views of a sequence of records.
pub open spec fn record_views(rs: Seq<RawRecord>) -> Seq<(u8, Seq<u8>)> {
    rs.map_values(|r: RawRecord| r@)
}

/// Frames the record that starts at `pos`: its tag and the bounds of its value.
/// The bounds check is made before anything of the value is read.
pub(crate) fn next_frame(bytes: &[u8], pos: usize, sentinels: bool) -> (r: Option<(u8, usize, usize)>)
    requires
        pos <= bytes@.len(),
    ensures
        r is None ==> first_frame(bytes@.skip(pos as int), sentinels) is None,
        r matches Some((tag, start, end)) ==> {
            &&& pos < start <= end <= bytes@.len()
            &&& first_frame(bytes@.skip(pos as int), sentinels) == Some(
                (tag, bytes@.subrange(start as int, end as int), end - pos),
            )
        },
{
    let len: usize = bytes.len();
    if pos >= len {
        return None;
    }
    let tag = bytes[pos];
    if sentinels && (tag == PAD || tag == END) {
        assert(bytes@.subrange(pos + 1, pos + 1) =~= Seq::<u8>::empty());
        return Some((tag, pos + 1, pos + 1));
    }
    if len - pos < 2 {
        return None;
    }
    let declared: usize = bytes[pos + 1] as usize;
    if len - pos - 2 < declared {
        return None;
    }
    let end: usize = pos + 2 + declared;
    assert(bytes@.skip(pos as int).subrange(2, 2 + declared) =~= bytes@.subrange(
        pos + 2,
        end as int,
    ));
    Some((tag, pos + 2, end))
}

/// Splits a buffer into its records, in order.
///
/// A record is `tag | length | value`, where `value` is `length` bytes; with
/// `sentinels`, Pad and End are records of one byte, and End ends the scan.
/// The scan stops, keeping every record before, where fewer than two bytes are
/// left for a tag and a length, or where a declared length runs past the end.
pub fn split_records(bytes: &[u8], sentinels: bool) -> (r: Vec<RawRecord>)
    ensures
        record_views(r@) == frames(bytes@, sentinels),
{
    let len: usize = bytes.len();
    let mut out: Vec<RawRecord> = Vec::new();
    let mut pos: usize = 0;
    assert(bytes@.skip(0) =~= bytes@);
    loop
        invariant_except_break
            frames(bytes@, sentinels) == record_views(out@) + frames(
                bytes@.skip(pos as int),
                sentinels,
            ),
        invariant
            len == bytes@.len(),
            pos <= len,
        ensures
            frames(bytes@, sentinels) == record_views(out@),
        decreases len - pos,
    {
        let ghost rest = bytes@.skip(pos as int);
        match next_frame(bytes, pos, sentinels) {
            None => {
                assert(frames(rest, sentinels) =~= Seq::<(u8, Seq<u8>)>::empty());
                assert(record_views(out@) + frames(rest, sentinels) =~= record_views(out@));
                break ;
            },
            Some((tag, start, end)) => {
                let value = read_bytes(slice_subrange(bytes, start, end));
                let ghost before = out@;
                out.push(RawRecord { tag, value });
                assert(record_views(out@) =~= record_views(before).push((tag, value@)));
                if sentinels && tag == END {
                    assert(frames(rest, sentinels) == seq![(tag, value@)]);
                    assert(record_views(out@) =~= record_views(before) + frames(rest, sentinels));
                    break ;
                }
                assert(rest.skip(end - pos) =~= bytes@.skip(end as int));
                assert(frames(rest, sentinels) == seq![(tag, value@)] + frames(
                    bytes@.skip(end as int),
                    sentinels,
                ));
                assert(record_views(out@) + frames(bytes@.skip(end as int), sentinels)
                    =~= record_views(before) + frames(rest, sentinels));
                pos = end;
            },
        }
    }
    out
}

/// Extending a prefix of `fs` by one record extends what a filter keeps of it
/// by that record exactly when the filter keeps it.
pub(crate) proof fn lemma_filter_take_next(
    fs: Seq<(u8, Seq<u8>)>,
    keep: spec_fn((u8, Seq<u8>)) -> bool,
    i: int,
)
    requires
        0 <= i < fs.len(),
    ensures
        fs.take(i + 1).filter(keep) == if keep(fs[i]) {
            fs.take(i).filter(keep).push(fs[i])
        } else {
            fs.take(i).filter(keep)
        },
{
    reveal(Seq::filter);
    assert(fs.take(i + 1).drop_last() =~= fs.take(i));
}

/// The scan runs over all of `b`: it meets neither an End nor a record cut
/// short, and the last record ends where `b` ends.
pub open spec fn complete(b: Seq<u8>, sentinels: bool) -> bool
    decreases b.len(),
{
    match first_frame(b, sentinels) {
        None => b.len() == 0,
        Some((tag, _, n)) => !(sentinels && tag == END) && complete(b.skip(n), sentinels),
    }
}

/// The bytes of one length-bearing record.
pub open spec fn record_bytes(tag: u8, v: Seq<u8>) -> Seq<u8> {
    seq![tag, v.len() as u8] + v
}

proof fn lemma_first_frame_prefix(a: Seq<u8>, b: Seq<u8>, sentinels: bool)
    requires
        first_frame(a, sentinels) is Some,
    ensures
        first_frame(a + b, sentinels) == first_frame(a, sentinels),
{
    if a.len() >= 2 && !(sentinels && (a[0] == PAD || a[0] == END)) {
        assert((a + b).subrange(2, 2 + a[1]) =~= a.subrange(2, 2 + a[1]));
    }
}

/// A stream that the scan runs through to its end can be followed by any
/// bytes: the records of the whole are its records, then those of the rest.
pub proof fn lemma_frames_concat(a: Seq<u8>, b: Seq<u8>, sentinels: bool)
    requires
        complete(a, sentinels),
    ensures
        frames(a + b, sentinels) == frames(a, sentinels) + frames(b, sentinels),
    decreases a.len(),
{
    if a.len() == 0 {
        assert(a + b =~= b);
        assert(frames(a, sentinels) =~= Seq::<(u8, Seq<u8>)>::empty());
        assert(frames(a, sentinels) + frames(b, sentinels) =~= frames(b, sentinels));
    } else {
        lemma_first_frame_prefix(a, b, sentinels);
        let (tag, value, n) = first_frame(a, sentinels).unwrap();
        assert((a + b).skip(n) =~= a.skip(n) + b);
        lemma_frames_concat(a.skip(n), b, sentinels);
        assert(seq![(tag, value)] + frames(a.skip(n), sentinels) + frames(b, sentinels)
            =~= seq![(tag, value)] + (frames(a.skip(n), sentinels) + frames(b, sentinels)));
    }
}

/// With sentinels, End is the last record, whatever follows it.
pub proof fn lemma_frames_end(tail: Seq<u8>)
    ensures
        frames(seq![END] + tail, true) == seq![(END, Seq::<u8>::empty())],
{
    assert((seq![END] + tail)[0] == END);
}

/// A record whose length byte is missing, or whose declared length runs past
/// the end, ends the scan before it.
pub proof fn lemma_frames_truncated(t: Seq<u8>, sentinels: bool)
    requires
        t.len() > 0,
        !(sentinels && (t[0] == PAD || t[0] == END)),
        t.len() < 2 || t.len() < 2 + t[1],
    ensures
        frames(t, sentinels) == Seq::<(u8, Seq<u8>)>::empty(),
{
}

/// A whole length-bearing record frames as itself, and the scan goes on after it.
pub proof fn lemma_frames_record(tag: u8, v: Seq<u8>, rest: Seq<u8>, sentinels: bool)
    requires
        v.len() <= 255,
        !(sentinels && (tag == PAD || tag == END)),
    ensures
        complete(record_bytes(tag, v), sentinels),
        frames(record_bytes(tag, v) + rest, sentinels) == seq![(tag, v)] + frames(rest, sentinels),
{
    let r = record_bytes(tag, v);
    assert(r[1] == v.len());
    assert(r.subrange(2, 2 + v.len() as int) =~= v);
    assert(r.skip(r.len() as int) =~= Seq::<u8>::empty());
    assert(complete(Seq::<u8>::empty(), sentinels));
    assert(first_frame(r, sentinels) == Some((tag, v, r.len() as int)));
    assert(frames(r.skip(r.len() as int), sentinels) =~= Seq::<(u8, Seq<u8>)>::empty());
    assert(frames(r, sentinels) =~= seq![(tag, v)]);
    lemma_frames_concat(r, rest, sentinels);
}

/// A filter keeps a one-record sequence whole or drops it.
pub(crate) proof fn lemma_filter_single(x: (u8, Seq<u8>), keep: spec_fn((u8, Seq<u8>)) -> bool)
    ensures
        seq![x].filter(keep) == if keep(x) {
            seq![x]
        } else {
            Seq::<(u8, Seq<u8>)>::empty()
        },
{
    reveal(Seq::filter);
    assert(seq![x].drop_last() =~= Seq::<(u8, Seq<u8>)>::empty());
    assert(Seq::<(u8, Seq<u8>)>::empty().filter(keep) =~= Seq::<(u8, Seq<u8>)>::empty());
    assert(Seq::<(u8, Seq<u8>)>::empty().push(x) =~= seq![x]);
}

} // verus!
