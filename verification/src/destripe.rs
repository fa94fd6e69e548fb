//! Removing device row-padding from captured payloads.
//!
//! A device copy writes each row of an image at an aligned byte stride
//! (`aligned_row_bytes`), which may exceed the logical row size
//! (`row_bytes`). Destriping recovers the dense image: row `r` of the dense
//! output is bytes `[r * aligned_row_bytes, r * aligned_row_bytes + row_bytes)`
//! of the payload, clipped to the payload's end so that a short or malformed
//! payload is truncated rather than read out of bounds.

use vstd::prelude::*;

verus! {

/// The destripped bytes contributed by row `r`: the row's logical bytes,
/// clipped to the payload's end. A row that starts at or past the end
/// contributes nothing.
pub open spec fn row_of(payload: Seq<u8>, row_bytes: int, aligned_row_bytes: int, r: int) -> Seq<
    u8,
> {
    let start = r * aligned_row_bytes;
    let end = if start + row_bytes <= payload.len() {
        start + row_bytes
    } else {
        payload.len() as int
    };
    if 0 <= start && start <= end {
        payload.subrange(start, end)
    } else {
        Seq::empty()
    }
}

/// The first `nrows` destripped rows, concatenated in row order.
pub open spec fn rows_upto(
    payload: Seq<u8>,
    row_bytes: int,
    aligned_row_bytes: int,
    nrows: int,
) -> Seq<u8>
    decreases nrows,
{
    if nrows <= 0 {
        Seq::empty()
    } else {
        rows_upto(payload, row_bytes, aligned_row_bytes, nrows - 1) + row_of(
            payload,
            row_bytes,
            aligned_row_bytes,
            nrows - 1,
        )
    }
}

/// What destriping yields: the payload verbatim when no padding was
/// introduced, otherwise the concatenation of the clipped rows.
pub open spec fn destripe_spec(
    payload: Seq<u8>,
    row_bytes: int,
    aligned_row_bytes: int,
    height: int,
) -> Seq<u8> {
    if row_bytes == aligned_row_bytes {
        payload
    } else {
        rows_upto(payload, row_bytes, aligned_row_bytes, height)
    }
}

/// Strips the device row-padding from `payload`, producing the dense bytes
/// of a `height`-row image whose logical rows are `row_bytes` wide and were
/// stored `aligned_row_bytes` apart. Clips rather than indexing out of
/// bounds when the payload is shorter than expected.
pub fn destripe(
    payload: &Vec<u8>,
    row_bytes: usize,
    aligned_row_bytes: usize,
    height: u32,
) -> (out: Vec<u8>)
    requires
        row_bytes <= aligned_row_bytes,
    ensures
        out@ == destripe_spec(payload@, row_bytes as int, aligned_row_bytes as int, height as int),
{
    if row_bytes == aligned_row_bytes {
        let mut out: Vec<u8> = Vec::new();
        let mut i: usize = 0;
        while i < payload.len()
            invariant
                i <= payload.len(),
                out@ =~= payload@.subrange(0, i as int),
            decreases payload.len() - i,
        {
            out.push(payload[i]);
            i = i + 1;
        }
        proof {
            assert(out@ =~= payload@);
        }
        out
    } else {
        let rb = row_bytes;
        let al = aligned_row_bytes;
        let plen: usize = payload.len();
        let mut out: Vec<u8> = Vec::new();
        let mut r: u32 = 0;
        while r < height
            invariant
                r <= height,
                rb < al,
                plen == payload@.len(),
                out@ == rows_upto(payload@, rb as int, al as int, r as int),
            decreases height - r,
        {
            match (r as usize).checked_mul(al) {
                Some(start) => {
                    if start < payload.len() {
                        let avail = payload.len() - start;
                        let take = if rb < avail {
                            rb
                        } else {
                            avail
                        };
                        let ghost prefix = out@;
                        let mut t: usize = 0;
                        while t < take
                            invariant
                                t <= take,
                                start + take <= payload.len(),
                                out@ =~= prefix + payload@.subrange(
                                    start as int,
                                    start as int + t as int,
                                ),
                            decreases take - t,
                        {
                            out.push(payload[start + t]);
                            t = t + 1;
                        }
                        proof {
                            assert(row_of(payload@, rb as int, al as int, r as int) =~= payload@
                                .subrange(start as int, start as int + take as int));
                            assert(out@ =~= rows_upto(
                                payload@,
                                rb as int,
                                al as int,
                                r as int + 1,
                            ));
                        }
                    } else {
                        proof {
                            assert(r as int * al as int == start as int);
                            assert(row_of(payload@, rb as int, al as int, r as int) =~= Seq::<
                                u8,
                            >::empty());
                            assert(out@ =~= rows_upto(
                                payload@,
                                rb as int,
                                al as int,
                                r as int + 1,
                            ));
                        }
                    }
                },
                None => {
                    proof {
                        assert(r as int * al as int > usize::MAX);
                        assert(row_of(payload@, rb as int, al as int, r as int) =~= Seq::<
                            u8,
                        >::empty());
                        assert(out@ =~= rows_upto(payload@, rb as int, al as int, r as int + 1));
                    }
                },
            }
            r = r + 1;
        }
        out
    }
}

/// Destripe round-trip: on a full copy buffer — `aligned_row_bytes` bytes
/// per row for `height` rows — destriping yields exactly the
/// `row_bytes * height` dense bytes, and byte `c` of dense row `r` is byte
/// `c` of the payload's row `r`: the padding is gone and every logical
/// byte survives in row order.
pub proof fn lemma_destripe_recovers_rows(
    payload: Seq<u8>,
    row_bytes: int,
    aligned_row_bytes: int,
    height: int,
)
    requires
        0 <= row_bytes < aligned_row_bytes,
        height >= 0,
        payload.len() >= aligned_row_bytes * height,
    ensures
        destripe_spec(payload, row_bytes, aligned_row_bytes, height).len() == row_bytes * height,
        forall|r: int, c: int|
            0 <= r < height && 0 <= c < row_bytes ==> destripe_spec(
                payload,
                row_bytes,
                aligned_row_bytes,
                height,
            )[r * row_bytes + c] == #[trigger] payload[r * aligned_row_bytes + c],
    decreases height,
{
    let rb = row_bytes;
    let al = aligned_row_bytes;
    if height > 0 {
        assert(al * (height - 1) + al == al * height && rb * (height - 1) + rb == rb * height
            && al * (height - 1) >= 0 && al * height >= al * (height - 1)) by (nonlinear_arith)
            requires
                0 <= rb < al,
                height >= 1,
        ;
        lemma_destripe_recovers_rows(payload, rb, al, height - 1);
        let prefix = rows_upto(payload, rb, al, height - 1);
        let start = (height - 1) * al;
        assert(start == al * (height - 1)) by (nonlinear_arith)
            requires
                start == (height - 1) * al,
        ;
        assert(start + rb <= payload.len());
        let row = row_of(payload, rb, al, height - 1);
        assert(row =~= payload.subrange(start, start + rb));
        assert(prefix.len() == rb * (height - 1));
        assert forall|r: int, c: int| 0 <= r < height && 0 <= c < rb implies rows_upto(
            payload,
            rb,
            al,
            height,
        )[r * rb + c] == #[trigger] payload[r * al + c] by {
            assert(r * rb + c < rb * height && r * rb + c >= 0 && (r < height - 1 ==> r * rb + c
                < rb * (height - 1)) && (r == height - 1 ==> r * rb + c >= rb * (height - 1)))
                by (nonlinear_arith)
                requires
                    0 <= r < height,
                    0 <= c < rb,
                    rb > 0,
            ;
            if r < height - 1 {
                assert(rows_upto(payload, rb, al, height)[r * rb + c] == prefix[r * rb + c]);
            } else {
                assert(r == height - 1);
                assert(r * rb + c - prefix.len() == c) by (nonlinear_arith)
                    requires
                        r == height - 1,
                        prefix.len() == rb * (height - 1),
                ;
                assert(rows_upto(payload, rb, al, height)[r * rb + c] == row[c]);
                assert(row[c] == payload[start + c]);
                assert(r * al + c == start + c) by (nonlinear_arith)
                    requires
                        r == height - 1,
                        start == (height - 1) * al,
                ;
            }
        }
    }
}

/// Last-value-wins: a tick that drained the messages `msgs` materializes
/// the destripped last message, and a tick that drained nothing leaves the
/// stored dense bytes unchanged.
pub open spec fn assemble_spec(
    stored: Seq<u8>,
    msgs: Seq<Seq<u8>>,
    row_bytes: int,
    aligned_row_bytes: int,
    height: int,
) -> Seq<u8> {
    if msgs.len() == 0 {
        stored
    } else {
        destripe_spec(msgs.last(), row_bytes, aligned_row_bytes, height)
    }
}

/// Of `N >= 1` payloads pending on a camera's channel, only the most recent
/// one decides the dense image a tick materializes.
pub proof fn lemma_last_value_wins(
    stored: Seq<u8>,
    msgs: Seq<Seq<u8>>,
    row_bytes: int,
    aligned_row_bytes: int,
    height: int,
)
    requires
        msgs.len() >= 1,
    ensures
        assemble_spec(stored, msgs, row_bytes, aligned_row_bytes, height) == destripe_spec(
            msgs.last(),
            row_bytes,
            aligned_row_bytes,
            height,
        ),
{
}

} // verus!
