//! Splitting a streamed response body into JSON values.
//!
//! Long-lived endpoints deliver a sequence of top-level JSON documents over
//! one chunked body. Each delivered buffer is assumed to hold only whole
//! documents: the splitter finds every complete top-level value in the
//! buffer, in document order, and a buffer that ends mid-document — or does
//! not hold JSON values at all — ends the stream with a serialization error.

use vstd::prelude::*;

use crate::errors::Error;

verus! {

/// JSON insignificant whitespace.
pub open spec fn is_ws(b: u8) -> bool {
    b == 0x20 || b == 0x09 || b == 0x0a || b == 0x0d
}

/// The position of the first byte at or after `i` that is not whitespace,
/// or the end of the buffer.
pub open spec fn skip_ws(b: Seq<u8>, i: int) -> int
    decreases b.len() - i,
{
    if i < 0 || i >= b.len() {
        b.len() as int
    } else if is_ws(b[i]) {
        skip_ws(b, i + 1)
    } else {
        i
    }
}

/// Where the value opening at `i` ends: the position just after the bracket
/// that closes it, tracking nesting depth and strings with their escapes.
/// Nothing ends a value before the buffer runs out.
pub open spec fn scan_end(b: Seq<u8>, i: int, depth: int, in_str: bool, esc: bool) -> Option<int>
    decreases b.len() - i,
{
    if i < 0 || i >= b.len() {
        None
    } else {
        let c = b[i];
        if in_str {
            if esc {
                scan_end(b, i + 1, depth, true, false)
            } else if c == 0x5c {
                scan_end(b, i + 1, depth, true, true)
            } else if c == 0x22 {
                scan_end(b, i + 1, depth, false, false)
            } else {
                scan_end(b, i + 1, depth, true, false)
            }
        } else {
            if c == 0x22 {
                scan_end(b, i + 1, depth, true, false)
            } else if c == 0x7b || c == 0x5b {
                scan_end(b, i + 1, depth + 1, false, false)
            } else if c == 0x7d || c == 0x5d {
                if depth <= 1 {
                    Some(i + 1)
                } else {
                    scan_end(b, i + 1, depth - 1, false, false)
                }
            } else {
                scan_end(b, i + 1, depth, false, false)
            }
        }
    }
}

/// A found value end lies strictly after the scan start, within the buffer.
proof fn lemma_scan_end_bounds(b: Seq<u8>, i: int, depth: int, in_str: bool, esc: bool)
    ensures
        scan_end(b, i, depth, in_str, esc) matches Some(e) ==> i < e <= b.len(),
    decreases b.len() - i,
{
    if i < 0 || i >= b.len() {
    } else {
        lemma_scan_end_bounds(b, i + 1, depth, true, false);
        lemma_scan_end_bounds(b, i + 1, depth, true, true);
        lemma_scan_end_bounds(b, i + 1, depth, false, false);
        lemma_scan_end_bounds(b, i + 1, depth + 1, false, false);
        lemma_scan_end_bounds(b, i + 1, depth - 1, false, false);
    }
}

/// The first non-whitespace position lies between the start and the end.
proof fn lemma_skip_ws_bounds(b: Seq<u8>, i: int)
    requires
        0 <= i <= b.len(),
    ensures
        i <= skip_ws(b, i) <= b.len(),
    decreases b.len() - i,
{
    if i < b.len() && is_ws(b[i]) {
        lemma_skip_ws_bounds(b, i + 1);
    }
}

/// The complete top-level JSON values in the buffer from position `i` on:
/// each value is an object or array found by bracket matching, values may be
/// separated by whitespace, and the buffer must end at a value boundary.
/// Nothing is returned when a value is cut short or the buffer holds
/// anything else.
pub open spec fn spec_segments(b: Seq<u8>, i: int) -> Option<Seq<Seq<u8>>>
    decreases b.len() - i,
        when 0 <= i <= b.len()
    via spec_segments_decreases
{
    let j = skip_ws(b, i);
    if j >= b.len() {
        Some(seq![])
    } else if b[j] != 0x7b && b[j] != 0x5b {
        None
    } else {
        match scan_end(b, j, 0, false, false) {
            Some(e) => match spec_segments(b, e) {
                Some(rest) => Some(seq![b.subrange(j, e)] + rest),
                None => None,
            },
            None => None,
        }
    }
}

#[via_fn]
proof fn spec_segments_decreases(b: Seq<u8>, i: int) {
    lemma_skip_ws_bounds(b, i);
    let j = skip_ws(b, i);
    if j < b.len() && (b[j] == 0x7b || b[j] == 0x5b) {
        lemma_scan_end_bounds(b, j, 0, false, false);
    }
}

/// The byte sequences of a list of buffers.
pub open spec fn segs_bytes(s: Seq<Vec<u8>>) -> Seq<Seq<u8>> {
    s.map_values(|v: Vec<u8>| v@)
}

/// A copy of one range of a byte buffer.
fn slice_range_vec(b: &[u8], from: usize, to: usize) -> (r: Vec<u8>)
    requires
        from <= to <= b@.len(),
    ensures
        r@ == b@.subrange(from as int, to as int),
{
    let mut r: Vec<u8> = Vec::new();
    let mut i: usize = from;
    while i < to
        invariant
            from <= i <= to <= b@.len(),
            r@ == b@.subrange(from as int, i as int),
        decreases to - i,
    {
        r.push(b[i]);
        proof {
            assert(b@.subrange(from as int, i + 1) =~= b@.subrange(from as int, i as int).push(
                b@[i as int],
            ));
        }
        i = i + 1;
    }
    r
}

/// Where the value opening at `start` ends, by the scan of [`scan_end`].
fn find_value_end(b: &[u8], start: usize) -> (r: Option<usize>)
    requires
        start <= b@.len(),
    ensures
        match r {
            Some(e) => scan_end(b@, start as int, 0, false, false) == Some(e as int) && start < e
                <= b@.len(),
            None => scan_end(b@, start as int, 0, false, false) is None,
        },
{
    let mut i: usize = start;
    let mut depth: u64 = 0;
    let mut in_str = false;
    let mut esc = false;
    loop
        invariant
            start <= i <= b@.len(),
            depth <= i - start,
            !in_str ==> !esc,
            scan_end(b@, start as int, 0, false, false) == scan_end(
                b@,
                i as int,
                depth as int,
                in_str,
                esc,
            ),
        ensures
            match scan_end(b@, start as int, 0, false, false) {
                Some(e) => start < e <= b@.len(),
                None => true,
            },
        decreases b@.len() - i,
    {
        proof {
            lemma_scan_end_bounds(b@, start as int, 0, false, false);
        }
        if i >= b.len() {
            return None;
        }
        let ghost pd = depth as int;
        let ghost ps = in_str;
        let ghost pe = esc;
        let c = b[i];
        if in_str {
            if esc {
                esc = false;
            } else if c == 0x5c {
                esc = true;
            } else if c == 0x22 {
                in_str = false;
            }
        } else {
            if c == 0x22 {
                in_str = true;
            } else if c == 0x7b || c == 0x5b {
                depth = depth + 1;
            } else if c == 0x7d || c == 0x5d {
                if depth <= 1 {
                    return Some(i + 1);
                }
                depth = depth - 1;
            }
        }
        proof {
            assert(scan_end(b@, i as int, pd, ps, pe) == scan_end(
                b@,
                i as int + 1,
                depth as int,
                in_str,
                esc,
            ));
        }
        i = i + 1;
    }
}

/// Splits a delivered buffer into the complete top-level JSON values it
/// holds, in document order. A buffer that ends inside a value, or whose
/// content is not a sequence of objects or arrays, yields a serialization
/// error instead: a document is never carried over to the next buffer.
pub fn split_values(chunk: &[u8]) -> (r: Result<Vec<Vec<u8>>, Error>)
    ensures
        r matches Ok(segs) ==> spec_segments(chunk@, 0) == Some(segs_bytes(segs@)),
        r is Err <==> spec_segments(chunk@, 0) is None,
        r matches Err(e) ==> e is Serialization,
{
    let mut out: Vec<Vec<u8>> = Vec::new();
    let mut i: usize = 0;
    proof {
        assert(segs_bytes(out@) =~= Seq::<Seq<u8>>::empty());
    }
    loop
        invariant
            0 <= i <= chunk@.len(),
            match spec_segments(chunk@, i as int) {
                Some(rest) => spec_segments(chunk@, 0) == Some(segs_bytes(out@) + rest),
                None => spec_segments(chunk@, 0) is None,
            },
        ensures
            spec_segments(chunk@, i as int) == Some(Seq::<Seq<u8>>::empty()),
            match spec_segments(chunk@, 0) {
                Some(all) => all == segs_bytes(out@),
                None => false,
            },
        decreases chunk@.len() - i,
    {
        let ghost i0 = i as int;
        while i < chunk.len() && (chunk[i] == 0x20 || chunk[i] == 0x09 || chunk[i] == 0x0a
            || chunk[i] == 0x0d)
            invariant
                i0 <= i <= chunk@.len(),
                skip_ws(chunk@, i0) == skip_ws(chunk@, i as int),
            decreases chunk@.len() - i,
        {
            i = i + 1;
        }
        proof {
            assert(skip_ws(chunk@, i as int) == i as int);
        }
        if i >= chunk.len() {
            assert(spec_segments(chunk@, i as int) == Some(Seq::<Seq<u8>>::empty()));
            assert(segs_bytes(out@) + Seq::<Seq<u8>>::empty() =~= segs_bytes(out@));
            break ;
        }
        let c = chunk[i];
        if c != 0x7b && c != 0x5b {
            assert(spec_segments(chunk@, i as int) is None);
            return Err(
                Error::Serialization("the body is not a stream of JSON documents".to_owned()),
            );
        }
        match find_value_end(chunk, i) {
            None => {
                assert(spec_segments(chunk@, i as int) is None);
                return Err(
                    Error::Serialization("a JSON document is cut short by the buffer".to_owned()),
                );
            },
            Some(e) => {
                let seg = slice_range_vec(chunk, i, e);
                let ghost pre = out@;
                out.push(seg);
                proof {
                    assert(segs_bytes(out@) =~= segs_bytes(pre).push(chunk@.subrange(
                        i as int,
                        e as int,
                    )));
                    match spec_segments(chunk@, e as int) {
                        Some(rest) => {
                            assert(spec_segments(chunk@, i0) == Some(
                                seq![chunk@.subrange(i as int, e as int)] + rest,
                            ));
                            assert(segs_bytes(pre) + (seq![chunk@.subrange(i as int, e as int)]
                                + rest) =~= segs_bytes(out@) + rest);
                        },
                        None => {
                            assert(spec_segments(chunk@, i0) is None);
                        },
                    }
                }
                i = e;
            },
        }
    }
    Ok(out)
}

/// The serde_json value type, carried through opaquely. Parsing into it is
/// the one thing the outside crate does here.
#[verifier::external_type_specification]
#[verifier::external_body]
pub struct ExValue(serde_json::Value);

/// Whether serde_json accepts these bytes as one JSON document; a function
/// of the bytes alone.
pub uninterp spec fn json_accepts(b: Seq<u8>) -> bool;

/// Relies on serde_json::from_slice: whether the bytes parse, and what they
/// parse to, depend on the bytes alone.
#[verifier::external_body]
fn parse_value(b: &Vec<u8>) -> (r: Option<serde_json::Value>)
    ensures
        (r is Some) == json_accepts(b@),
{
    serde_json::from_slice(b.as_slice()).ok()
}

/// Turns each delivered buffer of a chunked body into the parsed JSON values
/// it holds. One buffer is assumed to hold whole documents only; after the
/// first failure the stream yields errors and nothing else.
pub struct JsonValueStream {
    failed: bool,
}

impl JsonValueStream {
    /// Whether the stream has ended on an error; nothing follows one.
    pub closed spec fn spec_failed(&self) -> bool {
        self.failed
    }

    /// A fresh stream.
    pub fn new() -> (s: JsonValueStream)
        ensures
            !s.spec_failed(),
    {
        JsonValueStream { failed: false }
    }

    /// The parsed values of every complete top-level JSON document in the
    /// buffer, in document order. A buffer that does not split into whole
    /// documents serde_json accepts ends the stream with a serialization
    /// error.
    pub fn feed(&mut self, chunk: &[u8]) -> (r: Result<Vec<serde_json::Value>, Error>)
        ensures
            final(self).spec_failed() == (old(self).spec_failed() || r is Err),
            r matches Err(e) ==> e is Serialization,
            !old(self).spec_failed() && spec_segments(chunk@, 0) is None ==> r is Err,
            !old(self).spec_failed() && r is Ok ==> spec_segments(chunk@, 0) is Some
                && r->Ok_0@.len() == spec_segments(chunk@, 0)->Some_0.len() && (forall|k: int|
                0 <= k < spec_segments(chunk@, 0)->Some_0.len() ==> json_accepts(
                    #[trigger] spec_segments(chunk@, 0)->Some_0[k],
                )),
            !old(self).spec_failed() && r is Err && spec_segments(chunk@, 0) is Some ==> (exists|
                k: int,
            |
                0 <= k < spec_segments(chunk@, 0)->Some_0.len() && !json_accepts(
                    #[trigger] spec_segments(chunk@, 0)->Some_0[k],
                )),
    {
        if self.failed {
            return Err(Error::Serialization("the stream already ended on an error".to_owned()));
        }
        let segs = match split_values(chunk) {
            Ok(segs) => segs,
            Err(e) => {
                self.failed = true;
                return Err(e);
            },
        };
        let mut vals: Vec<serde_json::Value> = Vec::new();
        let mut k: usize = 0;
        while k < segs.len()
            invariant
                k <= segs@.len(),
                vals@.len() == k,
                !self.failed,
                spec_segments(chunk@, 0) == Some(segs_bytes(segs@)),
                forall|l: int| 0 <= l < k ==> json_accepts(#[trigger] segs_bytes(segs@)[l]),
            decreases segs@.len() - k,
        {
            match parse_value(&segs[k]) {
                Some(v) => {
                    vals.push(v);
                },
                None => {
                    self.failed = true;
                    proof {
                        assert(spec_segments(chunk@, 0)->Some_0 == segs_bytes(segs@));
                        assert(exists|l: int|
                            0 <= l < spec_segments(chunk@, 0)->Some_0.len() && !json_accepts(
                                #[trigger] spec_segments(chunk@, 0)->Some_0[l],
                            )) by {
                            assert(!json_accepts(spec_segments(chunk@, 0)->Some_0[k as int]));
                        }
                    }
                    return Err(
                        Error::Serialization("a document in the body is not valid JSON".to_owned()),
                    );
                },
            }
            k = k + 1;
        }
        proof {
            assert(vals@.len() == segs_bytes(segs@).len());
            assert(forall|l: int|
                0 <= l < segs_bytes(segs@).len() ==> json_accepts(#[trigger] segs_bytes(segs@)[l]));
        }
        Ok(vals)
    }
}

} // verus!
