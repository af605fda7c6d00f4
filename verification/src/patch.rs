//! Decoder for binary deltas in the classic three-stream format.
//!
//! A delta starts with a 32-byte header: an 8-byte magic constant and three
//! 8-byte integers (length of the compressed control stream, length of the
//! compressed diff stream, size of the target). Three bzip2 streams follow:
//! control, diff and extra.

use crate::error::{result_view, Error, ErrorView};
use vstd::prelude::*;
use vstd::slice::slice_subrange;
use vstd::string::StringExecFns;

verus! {

/// The eight bytes with which every delta begins.
pub open spec fn magic() -> Seq<u8> {
    seq![0x42u8, 0x53u8, 0x44u8, 0x49u8, 0x46u8, 0x46u8, 0x34u8, 0x30u8]
}

/// Length of the header: the magic constant and three encoded integers.
pub const HEADER_LEN: usize = 32;

/// Length of one control record: three encoded integers.
pub const RECORD_LEN: usize = 24;

/// Which of the three streams of a delta.
pub enum StreamKind {
    Control,
    Diff,
    Extra,
}

/// The text by which an error names a stream.
pub open spec fn stream_name(kind: StreamKind) -> Seq<char> {
    match kind {
        StreamKind::Control => "control stream"@,
        StreamKind::Diff => "diff stream"@,
        StreamKind::Extra => "extra stream"@,
    }
}

/// The cause that an error gives when a stream holds fewer bytes than a read
/// asks for.
pub open spec fn short_stream() -> Seq<char> {
    "stream is corrupt or ends early"@
}

/// The error for a read that `kind` cannot serve.
pub open spec fn decode_failed(kind: StreamKind) -> ErrorView {
    ErrorView::Decode(stream_name(kind), short_stream())
}

/// The magnitude that the eight bytes at the start of `b` encode: the low seven
/// bytes and the low seven bits of the eighth, little-endian.
pub open spec fn offtin_magnitude(b: Seq<u8>) -> int
    recommends
        b.len() >= 8,
{
    b[0] as int + b[1] as int * 0x100 + b[2] as int * 0x1_0000 + b[3] as int * 0x100_0000
        + b[4] as int * 0x1_0000_0000 + b[5] as int * 0x100_0000_0000 + b[6] as int
        * 0x1_0000_0000_0000 + (b[7] as int % 0x80) * 0x100_0000_0000_0000
}

/// The signed value that the eight bytes at the start of `b` encode. The top bit
/// of the eighth byte is a sign flag over the magnitude, not two's complement.
pub open spec fn spec_offtin(b: Seq<u8>) -> int
    recommends
        b.len() >= 8,
{
    if b[7] >= 0x80 {
        -offtin_magnitude(b)
    } else {
        offtin_magnitude(b)
    }
}

/// Decodes a sign-and-magnitude 64-bit integer from the first eight bytes of
/// `buf`.
pub fn offtin(buf: &[u8]) -> (y: i64)
    requires
        buf@.len() >= 8,
    ensures
        y == spec_offtin(buf@),
{
    let top: u8 = buf[7];
    let low: u8 = top & 0x7f;
    assert(low == top % 0x80 && (top & 0x80 != 0) == (top >= 0x80)) by (bit_vector)
        requires
            low == top & 0x7f,
    ;
    let mut y: i64 = low as i64;
    y = y * 256 + buf[6] as i64;
    y = y * 256 + buf[5] as i64;
    y = y * 256 + buf[4] as i64;
    y = y * 256 + buf[3] as i64;
    y = y * 256 + buf[2] as i64;
    y = y * 256 + buf[1] as i64;
    y = y * 256 + buf[0] as i64;
    if (top & 0x80) != 0 {
        y = -y;
    }
    y
}

/// One byte of the target in a copy block: the diff byte plus the old byte at
/// `old_index`, modulo 256, where `old_index` lies inside the old file; the diff
/// byte alone where it does not.
pub open spec fn add_old_byte(diff_byte: u8, old: Seq<u8>, old_index: int) -> u8 {
    if 0 <= old_index < old.len() {
        ((diff_byte as int + old[old_index] as int) % 256) as u8
    } else {
        diff_byte
    }
}

/// A copy block: each byte of `diff` with the old byte at the same distance
/// from `old_pos` added to it.
pub open spec fn add_old(diff: Seq<u8>, old: Seq<u8>, old_pos: int) -> Seq<u8> {
    Seq::new(diff.len(), |i: int| add_old_byte(diff[i], old, old_pos + i))
}

/// What the reconstruction loop yields from a state: `out` is the target built
/// so far, `old_pos` the cursor in the old file, and `ctrl`, `diff` and `extra`
/// what is left of the three streams.
///
/// While `out` is shorter than `target`, one control record is taken: three
/// integers `copy`, `insert` and `seek`. A negative `copy` or `insert` is a bad
/// size. `copy` bytes of `diff`, with the old file added in, and then `insert`
/// bytes of `extra` are appended, neither beyond `target`; the old cursor moves
/// by `copy + seek`. A stream that cannot serve a read fails the decoding.
pub open spec fn spec_rebuild(
    old: Seq<u8>,
    target: int,
    out: Seq<u8>,
    old_pos: int,
    ctrl: Seq<u8>,
    diff: Seq<u8>,
    extra: Seq<u8>,
) -> Result<Seq<u8>, ErrorView>
    decreases ctrl.len(),
{
    if out.len() >= target {
        Ok(out)
    } else if ctrl.len() < 24 {
        Err(decode_failed(StreamKind::Control))
    } else {
        let copy = spec_offtin(ctrl.subrange(0, 8));
        let insert = spec_offtin(ctrl.subrange(8, 16));
        let seek = spec_offtin(ctrl.subrange(16, 24));
        if copy < 0 {
            Err(ErrorView::BadPatchSize)
        } else if out.len() + copy > target {
            Err(ErrorView::PatchSanityCheckFail(0))
        } else if diff.len() < copy {
            Err(decode_failed(StreamKind::Diff))
        } else if insert < 0 {
            Err(ErrorView::BadPatchSize)
        } else if out.len() + copy + insert > target {
            Err(ErrorView::PatchSanityCheckFail(1))
        } else if extra.len() < insert {
            Err(decode_failed(StreamKind::Extra))
        } else {
            spec_rebuild(
                old,
                target,
                out + add_old(diff.take(copy), old, old_pos) + extra.take(insert),
                old_pos + copy + seek,
                ctrl.skip(24),
                diff.skip(copy),
                extra.skip(insert),
            )
        }
    }
}

/// The target that a delta with the given size and streams makes of `old`, or
/// the error on which its decoding stops.
pub open spec fn spec_patch_streams(
    old: Seq<u8>,
    target: int,
    ctrl: Seq<u8>,
    diff: Seq<u8>,
    extra: Seq<u8>,
) -> Result<Seq<u8>, ErrorView> {
    spec_rebuild(old, target, Seq::empty(), 0, ctrl, diff, extra)
}

/// Sanity-check enforcement: a control record whose copy length would carry the
/// target past its size is rejected with the first sanity-check error, whatever
/// else the streams hold.
pub proof fn copy_past_target_is_rejected(
    old: Seq<u8>,
    target: int,
    out: Seq<u8>,
    old_pos: int,
    ctrl: Seq<u8>,
    diff: Seq<u8>,
    extra: Seq<u8>,
)
    requires
        out.len() < target,
        ctrl.len() >= 24,
        out.len() + spec_offtin(ctrl.subrange(0, 8)) > target,
    ensures
        spec_rebuild(old, target, out, old_pos, ctrl, diff, extra) == Err::<Seq<u8>, ErrorView>(
            ErrorView::PatchSanityCheckFail(0),
        ),
{
}

/// A control record whose insert length would carry the target past its size,
/// after a copy block that fits, is rejected with the second sanity-check error.
pub proof fn insert_past_target_is_rejected(
    old: Seq<u8>,
    target: int,
    out: Seq<u8>,
    old_pos: int,
    ctrl: Seq<u8>,
    diff: Seq<u8>,
    extra: Seq<u8>,
)
    requires
        out.len() < target,
        ctrl.len() >= 24,
        0 <= spec_offtin(ctrl.subrange(0, 8)) <= diff.len(),
        out.len() + spec_offtin(ctrl.subrange(0, 8)) <= target,
        out.len() + spec_offtin(ctrl.subrange(0, 8)) + spec_offtin(ctrl.subrange(8, 16)) > target,
    ensures
        spec_rebuild(old, target, out, old_pos, ctrl, diff, extra) == Err::<Seq<u8>, ErrorView>(
            ErrorView::PatchSanityCheckFail(1),
        ),
{
}

/// Every target that the reconstruction loop yields has exactly the size that
/// the header names, and begins with what had been built before.
pub proof fn rebuilt_target_has_its_size(
    old: Seq<u8>,
    target: int,
    out: Seq<u8>,
    old_pos: int,
    ctrl: Seq<u8>,
    diff: Seq<u8>,
    extra: Seq<u8>,
)
    requires
        out.len() <= target,
    ensures
        spec_rebuild(old, target, out, old_pos, ctrl, diff, extra) matches Ok(bytes)
            ==> bytes.len() == target && out.is_prefix_of(bytes),
    decreases ctrl.len(),
{
    if out.len() < target && ctrl.len() >= 24 {
        let copy = spec_offtin(ctrl.subrange(0, 8));
        let insert = spec_offtin(ctrl.subrange(8, 16));
        let seek = spec_offtin(ctrl.subrange(16, 24));
        if 0 <= copy <= diff.len() && 0 <= insert <= extra.len() && out.len() + copy + insert
            <= target {
            let next = out + add_old(diff.take(copy), old, old_pos) + extra.take(insert);
            rebuilt_target_has_its_size(
                old,
                target,
                next,
                old_pos + copy + seek,
                ctrl.skip(24),
                diff.skip(copy),
                extra.skip(insert),
            );
        }
    }
}

/// The error for a read that the stream `kind` cannot serve.
fn stream_failure(kind: StreamKind) -> (e: Error)
    ensures
        e@ == decode_failed(kind),
{
    let what = match kind {
        StreamKind::Control => String::from_str("control stream"),
        StreamKind::Diff => String::from_str("diff stream"),
        StreamKind::Extra => String::from_str("extra stream"),
    };
    Error::Decode(what, String::from_str("stream is corrupt or ends early"))
}

/// Appends to `out` the `count` bytes of `diff` from `start`, each with the byte
/// of `source` at the same distance from `old_pos` added to it.
fn append_copy_block(
    out: &mut Vec<u8>,
    diff: &[u8],
    start: usize,
    count: usize,
    source: &[u8],
    old_pos: i128,
)
    requires
        start + count <= diff@.len(),
        -0x4000_0000_0000_0000_0000_0000_0000_0000 <= old_pos
            <= 0x4000_0000_0000_0000_0000_0000_0000_0000,
    ensures
        final(out)@ == old(out)@ + add_old(
            diff@.subrange(start as int, start + count),
            source@,
            old_pos as int,
        ),
{
    let ghost block = diff@.subrange(start as int, start + count);
    let limit: usize = diff.len();
    let mut i: usize = 0;
    while i < count
        invariant
            i <= count,
            start + count <= diff@.len() == limit,
            block == diff@.subrange(start as int, start + count),
            -0x4000_0000_0000_0000_0000_0000_0000_0000 <= old_pos
                <= 0x4000_0000_0000_0000_0000_0000_0000_0000,
            out@ == old(out)@ + add_old(block, source@, old_pos as int).take(i as int),
        decreases count - i,
    {
        let d: u8 = diff[start + i];
        let at: i128 = old_pos + i as i128;
        let b: u8 = if 0 <= at && at < source.len() as i128 {
            d.wrapping_add(source[at as usize])
        } else {
            d
        };
        assert(b == add_old_byte(block[i as int], source@, old_pos + i));
        out.push(b);
        assert(out@ =~= old(out)@ + add_old(block, source@, old_pos as int).take(i + 1));
        i += 1;
    }
    assert(add_old(block, source@, old_pos as int).take(count as int) =~= add_old(
        block,
        source@,
        old_pos as int,
    ));
}

/// Appends to `out` the `count` bytes of `extra` from `start`.
fn append_extra_block(out: &mut Vec<u8>, extra: &[u8], start: usize, count: usize)
    requires
        start + count <= extra@.len(),
    ensures
        final(out)@ == old(out)@ + extra@.subrange(start as int, start + count),
{
    let limit: usize = extra.len();
    let mut i: usize = 0;
    while i < count
        invariant
            i <= count,
            start + count <= extra@.len() == limit,
            out@ == old(out)@ + extra@.subrange(start as int, start + i),
        decreases count - i,
    {
        out.push(extra[start + i]);
        assert(out@ =~= old(out)@ + extra@.subrange(start as int, start + i + 1));
        i += 1;
    }
}

/// Rebuilds the target of a delta from the old file and the delta's three
/// streams, already decompressed: the reconstruction loop.
///
/// The result is exactly [`spec_patch_streams`]: the target of `target_size`
/// bytes, or the first error that the loop meets. Nothing is read outside the
/// old file or the streams, whatever the control records hold.
pub fn patch_streams(
    old: &[u8],
    target_size: u64,
    ctrl: &[u8],
    diff: &[u8],
    extra: &[u8],
) -> (res: Result<Vec<u8>, Error>)
    ensures
        result_view(res) == spec_patch_streams(old@, target_size as int, ctrl@, diff@, extra@),
        res matches Ok(bytes) ==> bytes@.len() == target_size,
{
    let mut out: Vec<u8> = Vec::new();
    let mut old_pos: i128 = 0;
    let mut ctrl_pos: usize = 0;
    let mut diff_pos: usize = 0;
    let mut extra_pos: usize = 0;
    let ghost goal = spec_patch_streams(old@, target_size as int, ctrl@, diff@, extra@);
    assert(ctrl@.skip(0) =~= ctrl@ && diff@.skip(0) =~= diff@ && extra@.skip(0) =~= extra@);
    while (out.len() as u64) < target_size
        invariant
            ctrl_pos <= ctrl@.len(),
            diff_pos <= diff@.len(),
            extra_pos <= extra@.len(),
            out@.len() <= target_size,
            goal == spec_patch_streams(old@, target_size as int, ctrl@, diff@, extra@),
            -(ctrl_pos as int) * 0x1000_0000_0000_0000 <= old_pos <= ctrl_pos as int
                * 0x1000_0000_0000_0000,
            goal == spec_rebuild(
                old@,
                target_size as int,
                out@,
                old_pos as int,
                ctrl@.skip(ctrl_pos as int),
                diff@.skip(diff_pos as int),
                extra@.skip(extra_pos as int),
            ),
        decreases ctrl@.len() - ctrl_pos,
    {
        let ghost c = ctrl@.skip(ctrl_pos as int);
        let ghost d = diff@.skip(diff_pos as int);
        let ghost x = extra@.skip(extra_pos as int);
        if ctrl.len() - ctrl_pos < RECORD_LEN {
            return Err(stream_failure(StreamKind::Control));
        }
        let copy: i64 = offtin(slice_subrange(ctrl, ctrl_pos, ctrl_pos + 8));
        let insert: i64 = offtin(slice_subrange(ctrl, ctrl_pos + 8, ctrl_pos + 16));
        let seek: i64 = offtin(slice_subrange(ctrl, ctrl_pos + 16, ctrl_pos + 24));
        assert(c.subrange(0, 8) =~= ctrl@.subrange(ctrl_pos as int, ctrl_pos + 8));
        assert(c.subrange(8, 16) =~= ctrl@.subrange(ctrl_pos + 8, ctrl_pos + 16));
        assert(c.subrange(16, 24) =~= ctrl@.subrange(ctrl_pos + 16, ctrl_pos + 24));
        if copy < 0 {
            return Err(Error::BadPatchSize);
        }
        if copy as u64 > target_size - out.len() as u64 {
            return Err(Error::PatchSanityCheckFail(0));
        }
        if ((diff.len() - diff_pos) as u64) < copy as u64 {
            return Err(stream_failure(StreamKind::Diff));
        }
        let copy_len: usize = copy as usize;
        if insert < 0 {
            return Err(Error::BadPatchSize);
        }
        if insert as u64 > target_size - out.len() as u64 - copy as u64 {
            return Err(Error::PatchSanityCheckFail(1));
        }
        if ((extra.len() - extra_pos) as u64) < insert as u64 {
            return Err(stream_failure(StreamKind::Extra));
        }
        let insert_len: usize = insert as usize;
        append_copy_block(&mut out, diff, diff_pos, copy_len, old, old_pos);
        append_extra_block(&mut out, extra, extra_pos, insert_len);
        proof {
            assert(d.take(copy as int) =~= diff@.subrange(diff_pos as int, diff_pos + copy_len));
            assert(x.take(insert as int) =~= extra@.subrange(
                extra_pos as int,
                extra_pos + insert_len,
            ));
            assert(c.skip(24) =~= ctrl@.skip(ctrl_pos + 24));
            assert(d.skip(copy as int) =~= diff@.skip(diff_pos + copy_len));
            assert(x.skip(insert as int) =~= extra@.skip(extra_pos + insert_len));
        }
        old_pos = old_pos + copy as i128 + seek as i128;
        ctrl_pos += RECORD_LEN;
        diff_pos += copy_len;
        extra_pos += insert_len;
    }
    Ok(out)
}

/// What a bzip2 reader yields from `input` when it is read to its end: the
/// content of the bzip2 stream with which `input` begins, whatever follows that
/// stream; `None` where `input` does not begin with a complete, valid stream.
pub uninterp spec fn bz_first_stream(input: Seq<u8>) -> Option<Seq<u8>>;

/// Reads a `bzip2::read::BzDecoder` over `input` to its end.
///
/// Trusted: the result is what the decoder yields, named [`bz_first_stream`].
/// The decoder stops at the end of the first stream and fails on invalid or
/// truncated data; on failure nothing of what it had yielded is kept.
#[verifier::external_body]
fn bz_read_stream(input: &[u8]) -> (out: Option<Vec<u8>>)
    ensures
        out matches Some(bytes) ==> bz_first_stream(input@) == Some(bytes@),
        out is None ==> bz_first_stream(input@) is None,
{
    let mut bytes = Vec::new();
    match std::io::Read::read_to_end(&mut bzip2::read::BzDecoder::new(input), &mut bytes) {
        Ok(_) => Some(bytes),
        Err(_) => None,
    }
}

/// The part of a delta from `start` to its end; nothing where the delta is
/// shorter than `start`.
pub open spec fn region(patch: Seq<u8>, start: int) -> Seq<u8> {
    if 0 <= start <= patch.len() {
        patch.skip(start)
    } else {
        Seq::empty()
    }
}

/// The bytes that the stream beginning at `start` of a delta can serve: its
/// decompressed content, or nothing where it cannot be decompressed.
pub open spec fn stream_bytes(patch: Seq<u8>, start: int) -> Seq<u8> {
    match bz_first_stream(region(patch, start)) {
        Some(bytes) => bytes,
        None => Seq::empty(),
    }
}

/// The three lengths in the header of a delta: control stream, diff stream and
/// target.
pub open spec fn header_lengths(patch: Seq<u8>) -> (int, int, int)
    recommends
        patch.len() >= 32,
{
    (
        spec_offtin(patch.subrange(8, 16)),
        spec_offtin(patch.subrange(16, 24)),
        spec_offtin(patch.subrange(24, 32)),
    )
}

/// What applying the delta `patch` to `old` gives.
///
/// A delta shorter than its header, or without the magic constant, has a bad
/// version; a negative length in the header is a bad size. Otherwise the control
/// stream begins at offset 32, the diff stream after the control stream's
/// length, the extra stream after the diff stream's length, and the target is
/// what the reconstruction loop makes of them.
pub open spec fn spec_apply_patch(patch: Seq<u8>, old: Seq<u8>) -> Result<Seq<u8>, ErrorView> {
    if patch.len() < 32 || patch.subrange(0, 8) != magic() {
        Err(ErrorView::BadPatchVersion)
    } else {
        let (ctrl_len, diff_len, target) = header_lengths(patch);
        if ctrl_len < 0 || diff_len < 0 || target < 0 {
            Err(ErrorView::BadPatchSize)
        } else {
            spec_patch_streams(
                old,
                target,
                stream_bytes(patch, 32),
                stream_bytes(patch, 32 + ctrl_len),
                stream_bytes(patch, 32 + ctrl_len + diff_len),
            )
        }
    }
}

/// Whether `patch` begins with the magic constant.
fn has_magic(patch: &[u8]) -> (yes: bool)
    requires
        patch@.len() >= 8,
    ensures
        yes == (patch@.subrange(0, 8) == magic()),
{
    let yes = patch[0] == 0x42 && patch[1] == 0x53 && patch[2] == 0x44 && patch[3] == 0x49
        && patch[4] == 0x46 && patch[5] == 0x46 && patch[6] == 0x34 && patch[7] == 0x30;
    proof {
        let head = patch@.subrange(0, 8);
        if yes {
            assert(head =~= magic());
        } else {
            assert(head[0] == patch@[0] && head[1] == patch@[1] && head[2] == patch@[2] && head[3]
                == patch@[3] && head[4] == patch@[4] && head[5] == patch@[5] && head[6]
                == patch@[6] && head[7] == patch@[7]);
        }
    }
    yes
}

/// Decompresses the stream that begins at `start` of a delta.
fn read_stream(patch: &[u8], start: u128) -> (bytes: Vec<u8>)
    ensures
        bytes@ == stream_bytes(patch@, start as int),
{
    let input: &[u8] = if start <= patch.len() as u128 {
        let from: usize = start as usize;
        let tail = slice_subrange(patch, from, patch.len());
        assert(tail@ =~= patch@.skip(from as int));
        tail
    } else {
        let tail = slice_subrange(patch, 0, 0);
        assert(tail@ =~= Seq::<u8>::empty());
        tail
    };
    match bz_read_stream(input) {
        Some(bytes) => bytes,
        None => Vec::new(),
    }
}

/// Applies the delta `patch` to the bytes of the old file and returns the bytes
/// of the new one.
///
/// The result is exactly [`spec_apply_patch`], in which the content of each of
/// the three streams is what the bzip2 reader yields of it.
pub fn apply_patch(patch: &[u8], old: &[u8]) -> (res: Result<Vec<u8>, Error>)
    ensures
        result_view(res) == spec_apply_patch(patch@, old@),
{
    if patch.len() < HEADER_LEN || !has_magic(patch) {
        return Err(Error::BadPatchVersion);
    }
    let ctrl_len: i64 = offtin(slice_subrange(patch, 8, 16));
    let diff_len: i64 = offtin(slice_subrange(patch, 16, 24));
    let target: i64 = offtin(slice_subrange(patch, 24, 32));
    if ctrl_len < 0 || diff_len < 0 || target < 0 {
        return Err(Error::BadPatchSize);
    }
    let diff_start: u128 = 32 + ctrl_len as u128;
    let extra_start: u128 = diff_start + diff_len as u128;
    let ctrl = read_stream(patch, 32);
    let diff = read_stream(patch, diff_start);
    let extra = read_stream(patch, extra_start);
    patch_streams(old, target as u64, ctrl.as_slice(), diff.as_slice(), extra.as_slice())
}

/// Applies the delta `patch` to `old_file` and stores the outcome in `new`, which
/// stands for the content of the file that the outcome is written to.
///
/// On success `new` holds the target; on failure it is left as it was.
pub fn bsdiff_patch(patch: &[u8], old_file: &[u8], new: &mut Vec<u8>) -> (res: Result<(), Error>)
    ensures
        match spec_apply_patch(patch@, old_file@) {
            Ok(target) => res is Ok && final(new)@ == target,
            Err(e) => res matches Err(g) && g@ == e && *final(new) == *old(new),
        },
{
    match apply_patch(patch, old_file) {
        Ok(target) => {
            *new = target;
            Ok(())
        },
        Err(e) => Err(e),
    }
}

/// Patches the content of a file in place: `target` holds the old bytes before
/// the call and the new ones after it.
///
/// The content changes only when the whole delta has been decoded: on failure
/// `target` is what it was.
pub fn patch_file(patch: &[u8], target: &mut Vec<u8>) -> (res: Result<(), Error>)
    ensures
        match spec_apply_patch(patch@, old(target)@) {
            Ok(bytes) => res is Ok && final(target)@ == bytes,
            Err(e) => res matches Err(g) && g@ == e && *final(target) == *old(target),
        },
{
    let mut staged: Vec<u8> = Vec::new();
    match bsdiff_patch(patch, target.as_slice(), &mut staged) {
        Ok(()) => {
            *target = staged;
            Ok(())
        },
        Err(e) => Err(e),
    }
}

} // verus!
