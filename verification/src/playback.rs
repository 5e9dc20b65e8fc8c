//! Looped playback of decoded PCM data.
//!
//! Playback keeps a cursor into the PCM data. Every output buffer is
//! filled frame by frame from the cursor, which moves forward and jumps
//! back to the start at the end of the data, so the audio loops forever.

use vstd::prelude::*;
use vstd::arithmetic::div_mod::{
    lemma_add_mod_noop, lemma_fundamental_div_mod, lemma_fundamental_div_mod_converse_mod,
    lemma_mod_twice, lemma_small_mod,
};

verus! {

/// Number of samples handed to the sound server in one write.
pub const WRITE_BUFFER_LEN: usize = 2048;

/// The frames that looped playback of `pcm` yields, `count` of them,
/// when it starts at position `start`.
pub open spec fn looped_frames<T>(pcm: Seq<T>, start: int, count: nat) -> Seq<T> {
    Seq::new(count, |i: int| pcm[(start + i) % (pcm.len() as int)])
}

/// Where the cursor stands after `count` frames were played from `start`.
pub open spec fn advanced_cursor(start: int, count: nat, len: nat) -> int {
    (start + count) % (len as int)
}

/// One step of the cursor: `(a % m + 1) % m == (a + 1) % m`, and it is
/// the plain successor unless that reaches `m`.
proof fn lemma_cursor_step(a: int, m: int)
    requires
        a >= 0,
        m > 0,
    ensures
        (a + 1) % m == if a % m + 1 >= m { 0 } else { a % m + 1 },
{
    let q = a / m;
    let r = a % m;
    lemma_fundamental_div_mod(a, m);
    if r + 1 < m {
        lemma_fundamental_div_mod_converse_mod(a + 1, m, q, r + 1);
    } else {
        assert(a + 1 == m * (q + 1) + 0) by (nonlinear_arith)
            requires
                a == m * q + r,
                r + 1 == m,
        ;
        lemma_fundamental_div_mod_converse_mod(a + 1, m, q + 1, 0);
    }
}

/// Brings a cursor that may have run past the end of the data back into
/// range, as the write loop does before it fills a buffer.
pub fn wrap_cursor(cursor: usize, len: usize) -> (res: usize)
    requires
        len > 0,
    ensures
        res == cursor % len,
        res < len,
        cursor < len ==> res == cursor,
{
    if cursor >= len {
        cursor % len
    } else {
        proof {
            lemma_small_mod(cursor as nat, len as nat);
        }
        cursor
    }
}

/// Fills `count` frames from `pcm`, starting at `cursor` and looping back
/// to the start at the end of the data. Returns the frames and the cursor
/// after the last of them.
///
/// The cursor must point into the data whenever a frame is to be read.
pub fn fill_frames<T: Copy>(pcm: &[T], cursor: usize, count: usize) -> (res: (Vec<T>, usize))
    requires
        count > 0 ==> cursor < pcm@.len(),
    ensures
        res.0@ == looped_frames(pcm@, cursor as int, count as nat),
        count == 0 ==> res.1 == cursor,
        count > 0 ==> res.1 == advanced_cursor(cursor as int, count as nat, pcm@.len()),
        count > 0 ==> res.1 < pcm@.len(),
{
    let mut frames: Vec<T> = Vec::with_capacity(count);
    let mut pos: usize = cursor;
    let mut i: usize = 0;
    proof {
        if count > 0 {
            lemma_small_mod(cursor as nat, pcm@.len());
        }
    }
    while i < count
        invariant
            i <= count,
            count > 0 ==> cursor < pcm@.len(),
            frames@ == looped_frames(pcm@, cursor as int, i as nat),
            i == 0 ==> pos == cursor,
            count > 0 ==> pos == (cursor + i) % (pcm@.len() as int),
            count > 0 ==> pos < pcm@.len(),
        decreases count - i,
    {
        let ghost len = pcm@.len() as int;
        let frame = pcm[pos];
        frames.push(frame);
        proof {
            assert(frames@ =~= looped_frames(pcm@, cursor as int, (i + 1) as nat));
            lemma_cursor_step(cursor + i, len);
        }
        pos = pos + 1;
        if pos >= pcm.len() {
            pos = 0;
        }
        i = i + 1;
    }
    (frames, pos)
}

/// The next buffer for the sound server: the cursor is first brought back
/// into range, then a whole buffer is filled from it.
pub fn next_write_buffer<T: Copy>(pcm: &[T], cursor: usize) -> (res: (Vec<T>, usize))
    requires
        pcm@.len() > 0,
    ensures
        res.0@ == looped_frames(pcm@, (cursor as int) % (pcm@.len() as int), WRITE_BUFFER_LEN as nat),
        res.1 == advanced_cursor((cursor as int) % (pcm@.len() as int), WRITE_BUFFER_LEN as nat, pcm@.len()),
        res.1 < pcm@.len(),
{
    let start = wrap_cursor(cursor, pcm.len());
    fill_frames(pcm, start, WRITE_BUFFER_LEN)
}

/// Where the cursor stands after `k` buffers were written, one after
/// another, by `next_write_buffer` from a cursor at `cursor`, with nothing
/// else moving it.
pub open spec fn cursor_after_writes(cursor: int, len: nat, k: nat) -> int
    decreases k,
{
    if k == 0 {
        cursor
    } else {
        advanced_cursor(
            cursor_after_writes(cursor, len, (k - 1) as nat) % (len as int),
            WRITE_BUFFER_LEN as nat,
            len,
        )
    }
}

/// The buffer that the `k`-th such write (counting from 0) hands to the
/// sound server.
pub open spec fn written_buffer<T>(pcm: Seq<T>, cursor: int, k: nat) -> Seq<T> {
    looped_frames(
        pcm,
        cursor_after_writes(cursor, pcm.len(), k) % (pcm.len() as int),
        WRITE_BUFFER_LEN as nat,
    )
}

/// Starting from a position or from its remainder gives the same frames.
proof fn lemma_looped_mod_start<T>(pcm: Seq<T>, start: int, count: nat)
    requires
        pcm.len() > 0,
    ensures
        looped_frames(pcm, start % (pcm.len() as int), count) == looped_frames(pcm, start, count),
{
    let m = pcm.len() as int;
    assert forall|i: int| 0 <= i < count implies #[trigger] ((start % m + i) % m) == (start + i) % m by {
        lemma_add_mod_noop(start, i, m);
        lemma_add_mod_noop(start % m, i, m);
        lemma_mod_twice(start, m);
    }
    assert(looped_frames(pcm, start % m, count) =~= looped_frames(pcm, start, count));
}

/// The write loop plays the data as one endless loop: with nothing else
/// moving the cursor, the `k`-th buffer holds the 2048 frames that follow
/// the first `2048 * k` frames played from the cursor brought into range,
/// and after it the cursor stands just past them, within the data.
pub proof fn lemma_write_loop<T>(pcm: Seq<T>, cursor: int, k: nat)
    requires
        pcm.len() > 0,
        cursor >= 0,
    ensures
        written_buffer(pcm, cursor, k) == looped_frames(
            pcm,
            cursor % (pcm.len() as int) + WRITE_BUFFER_LEN * k,
            WRITE_BUFFER_LEN as nat,
        ),
        cursor_after_writes(cursor, pcm.len(), k + 1) == (cursor % (pcm.len() as int)
            + WRITE_BUFFER_LEN * (k + 1)) % (pcm.len() as int),
        0 <= cursor_after_writes(cursor, pcm.len(), k + 1) < pcm.len(),
    decreases k,
{
    let m = pcm.len() as int;
    let base = cursor % m;
    let w = WRITE_BUFFER_LEN as int;
    if k == 0 {
        assert(base + w * 0 == base);
    } else {
        lemma_write_loop(pcm, cursor, (k - 1) as nat);
        let before = cursor_after_writes(cursor, pcm.len(), k);
        assert(before == (base + w * k) % m);
        lemma_mod_twice(base + w * k, m);
        lemma_looped_mod_start(pcm, base + w * k, WRITE_BUFFER_LEN as nat);
        lemma_add_mod_noop(base + w * k, w, m);
        lemma_mod_twice(w, m);
        lemma_add_mod_noop(before % m, w, m);
        assert(base + w * k + w == base + w * (k + 1));
    }
}

/// Playing `a` frames and then `b` more from where the cursor stopped
/// gives the same frames, and leaves the cursor at the same place, as
/// playing `a + b` frames at once.
pub proof fn lemma_fill_concat<T>(pcm: Seq<T>, start: int, a: nat, b: nat)
    requires
        pcm.len() > 0,
        start >= 0,
    ensures
        looped_frames(pcm, start, a) + looped_frames(pcm, advanced_cursor(start, a, pcm.len()), b)
            == looped_frames(pcm, start, a + b),
        advanced_cursor(advanced_cursor(start, a, pcm.len()), b, pcm.len())
            == advanced_cursor(start, a + b, pcm.len()),
{
    let m = pcm.len() as int;
    let mid = advanced_cursor(start, a, pcm.len());
    assert forall|j: int| 0 <= j < b implies #[trigger] ((mid + j) % m) == (start + a + j) % m by {
        lemma_add_mod_noop(start + a, j, m);
        lemma_mod_twice(start + a, m);
        lemma_add_mod_noop(mid, j, m);
    }
    assert(looped_frames(pcm, start, a) + looped_frames(pcm, mid, b)
        =~= looped_frames(pcm, start, a + b));
    lemma_add_mod_noop(start + a, b as int, m);
    lemma_mod_twice(start + a, m);
    lemma_mod_twice(b as int, m);
    lemma_add_mod_noop(mid, b as int, m);
}

/// Looped playback repeats itself: a frame played `len` frames after
/// another one is the same frame, and after `len` frames the cursor is
/// back where it started.
pub proof fn lemma_fill_periodic<T>(pcm: Seq<T>, start: int, count: nat)
    requires
        pcm.len() > 0,
        0 <= start < pcm.len(),
    ensures
        forall|i: int|
            0 <= i && i + pcm.len() < count ==> #[trigger] looped_frames(pcm, start, count)[i
                + pcm.len()] == looped_frames(pcm, start, count)[i],
        advanced_cursor(start, pcm.len(), pcm.len()) == start,
{
    let m = pcm.len() as int;
    assert forall|i: int|
        0 <= i && i + pcm.len() < count implies #[trigger] looped_frames(pcm, start, count)[i
        + pcm.len()] == looped_frames(pcm, start, count)[i] by {
        lemma_add_mod_noop(start + i, m, m);
        vstd::arithmetic::div_mod::lemma_mod_self_0(m);
        lemma_mod_twice(start + i, m);
    }
    lemma_add_mod_noop(start, m, m);
    vstd::arithmetic::div_mod::lemma_mod_self_0(m);
    lemma_small_mod(start as nat, m as nat);
}

/// Bringing the cursor back into range twice changes nothing more than
/// doing it once.
pub proof fn lemma_wrap_idempotent(cursor: nat, len: nat)
    requires
        len > 0,
    ensures
        (cursor % len) % len == cursor % len,
{
    lemma_mod_twice(cursor as int, len as int);
}

} // verus!
