//! The inverse of the delta decoder, as a mathematical function, and the proof
//! that decoding undoes it.
//!
//! A delta is built from a plan: a sequence of control records that tile the
//! target with copy blocks and insert blocks. Nothing here is executable; the
//! module states what a correctly built delta is and proves that the decoder
//! rebuilds the target from it.

use crate::error::ErrorView;
use crate::patch::{
    add_old, add_old_byte, header_lengths, magic, spec_apply_patch, spec_offtin, spec_patch_streams,
    spec_rebuild, stream_bytes,
};
use vstd::prelude::*;

verus! {

/// One control record: copy `copy` bytes through the diff stream, insert
/// `insert` bytes from the extra stream, then move the old cursor by `seek`.
pub struct Record {
    pub copy: int,
    pub insert: int,
    pub seek: int,
}

/// The largest magnitude that eight bytes encode.
pub open spec fn max_magnitude() -> int {
    0x7fff_ffff_ffff_ffff
}

/// The eight bytes that encode `v`: the magnitude little-endian, the sign in the
/// top bit of the last byte.
#[verifier::opaque]
pub open spec fn spec_offtout(v: int) -> Seq<u8> {
    let m0 = if v < 0 {
        -v
    } else {
        v
    };
    let sign: int = if v < 0 {
        0x80
    } else {
        0
    };
    let m1 = m0 / 0x100;
    let m2 = m1 / 0x100;
    let m3 = m2 / 0x100;
    let m4 = m3 / 0x100;
    let m5 = m4 / 0x100;
    let m6 = m5 / 0x100;
    let m7 = m6 / 0x100;
    seq![
        (m0 % 0x100) as u8,
        (m1 % 0x100) as u8,
        (m2 % 0x100) as u8,
        (m3 % 0x100) as u8,
        (m4 % 0x100) as u8,
        (m5 % 0x100) as u8,
        (m6 % 0x100) as u8,
        (m7 % 0x80 + sign) as u8,
    ]
}

/// Decoding an encoded integer gives the integer back, for every integer whose
/// magnitude fits.
pub proof fn offtin_inverts_offtout(v: int)
    requires
        -max_magnitude() <= v <= max_magnitude(),
    ensures
        spec_offtout(v).len() == 8,
        spec_offtin(spec_offtout(v)) == v,
{
    reveal(spec_offtout);
    let m0 = if v < 0 {
        -v
    } else {
        v
    };
    let m1 = m0 / 0x100;
    let m2 = m1 / 0x100;
    let m3 = m2 / 0x100;
    let m4 = m3 / 0x100;
    let m5 = m4 / 0x100;
    let m6 = m5 / 0x100;
    let m7 = m6 / 0x100;
    let b = spec_offtout(v);
    assert(0 <= m7 < 0x80);
    assert(b[7] as int % 0x80 == m7);
    assert((b[7] >= 0x80) == (v < 0));
    assert(m6 == b[6] as int + 0x100 * m7);
    assert(m5 == b[5] as int + 0x100 * m6);
    assert(m4 == b[4] as int + 0x100 * m5);
    assert(m3 == b[3] as int + 0x100 * m4);
    assert(m2 == b[2] as int + 0x100 * m3);
    assert(m1 == b[1] as int + 0x100 * m2);
    assert(m0 == b[0] as int + 0x100 * m1);
}

/// The 24 bytes of a control record.
pub open spec fn record_bytes(r: Record) -> Seq<u8> {
    spec_offtout(r.copy) + spec_offtout(r.insert) + spec_offtout(r.seek)
}

/// One byte of the diff stream: the target byte minus the old byte at
/// `old_index`, modulo 256, where `old_index` lies inside the old file; the
/// target byte itself where it does not.
pub open spec fn sub_old_byte(target_byte: u8, old: Seq<u8>, old_index: int) -> u8 {
    if 0 <= old_index < old.len() {
        ((target_byte as int - old[old_index] as int) % 256) as u8
    } else {
        target_byte
    }
}

/// The diff bytes of a copy block whose target bytes are `block`.
pub open spec fn sub_old(block: Seq<u8>, old: Seq<u8>, old_pos: int) -> Seq<u8> {
    Seq::new(block.len(), |i: int| sub_old_byte(block[i], old, old_pos + i))
}

/// Whether `plan` tiles what is left of a target after `pos` bytes: no record
/// has a negative or oversized length, every field can be encoded, and the
/// blocks together are exactly `rest` bytes long.
pub open spec fn tiles(plan: Seq<Record>, rest: int) -> bool
    decreases plan.len(),
{
    if plan.len() == 0 {
        rest == 0
    } else {
        let r = plan[0];
        &&& 0 <= r.copy <= max_magnitude()
        &&& 0 <= r.insert <= max_magnitude()
        &&& -max_magnitude() <= r.seek <= max_magnitude()
        &&& r.copy + r.insert <= rest
        &&& tiles(plan.drop_first(), rest - r.copy - r.insert)
    }
}

/// The control stream of a plan.
pub open spec fn control_stream(plan: Seq<Record>) -> Seq<u8>
    decreases plan.len(),
{
    if plan.len() == 0 {
        Seq::empty()
    } else {
        record_bytes(plan[0]) + control_stream(plan.drop_first())
    }
}

/// The diff stream of a plan that continues a target at `pos` with the old
/// cursor at `old_pos`.
pub open spec fn diff_stream(
    old: Seq<u8>,
    target: Seq<u8>,
    pos: int,
    old_pos: int,
    plan: Seq<Record>,
) -> Seq<u8>
    decreases plan.len(),
{
    if plan.len() == 0 {
        Seq::empty()
    } else {
        let r = plan[0];
        sub_old(target.subrange(pos, pos + r.copy), old, old_pos) + diff_stream(
            old,
            target,
            pos + r.copy + r.insert,
            old_pos + r.copy + r.seek,
            plan.drop_first(),
        )
    }
}

/// The extra stream of a plan that continues a target at `pos`.
pub open spec fn extra_stream(target: Seq<u8>, pos: int, plan: Seq<Record>) -> Seq<u8>
    decreases plan.len(),
{
    if plan.len() == 0 {
        Seq::empty()
    } else {
        let r = plan[0];
        target.subrange(pos + r.copy, pos + r.copy + r.insert) + extra_stream(
            target,
            pos + r.copy + r.insert,
            plan.drop_first(),
        )
    }
}

/// Adding the old bytes to a diff block that was made by subtracting them gives
/// the target bytes back.
pub proof fn add_old_inverts_sub_old(block: Seq<u8>, old: Seq<u8>, old_pos: int)
    ensures
        add_old(sub_old(block, old, old_pos), old, old_pos) == block,
{
    let back = add_old(sub_old(block, old, old_pos), old, old_pos);
    assert forall|i: int| 0 <= i < block.len() implies back[i] == block[i] by {
        let d = sub_old_byte(block[i], old, old_pos + i);
        assert(back[i] == add_old_byte(d, old, old_pos + i));
    }
    assert(back =~= block);
}

/// The control stream of a plan that is not empty begins with the encoded
/// fields of its first record, and goes on with the stream of the other records.
proof fn control_stream_unfolds(plan: Seq<Record>)
    requires
        plan.len() > 0,
    ensures
        control_stream(plan).len() >= 24,
        control_stream(plan).subrange(0, 8) == spec_offtout(plan[0].copy),
        control_stream(plan).subrange(8, 16) == spec_offtout(plan[0].insert),
        control_stream(plan).subrange(16, 24) == spec_offtout(plan[0].seek),
        control_stream(plan).skip(24) == control_stream(plan.drop_first()),
{
    let r = plan[0];
    let ctrl = control_stream(plan);
    let head = record_bytes(r);
    assert(spec_offtout(r.copy).len() == 8 && spec_offtout(r.insert).len() == 8
        && spec_offtout(r.seek).len() == 8) by {
        reveal(spec_offtout);
    }
    assert(head.len() == 24);
    assert(ctrl == head + control_stream(plan.drop_first()));
    assert(ctrl.subrange(0, 8) =~= spec_offtout(r.copy));
    assert(ctrl.subrange(8, 16) =~= spec_offtout(r.insert));
    assert(ctrl.subrange(16, 24) =~= spec_offtout(r.seek));
    assert(ctrl.skip(24) =~= control_stream(plan.drop_first()));
}

/// The diff stream of a plan that is not empty begins with the diff bytes of
/// its first copy block, and goes on with the stream of the other records.
proof fn diff_stream_unfolds(
    old: Seq<u8>,
    target: Seq<u8>,
    pos: int,
    old_pos: int,
    plan: Seq<Record>,
)
    requires
        plan.len() > 0,
        0 <= pos,
        0 <= plan[0].copy,
        pos + plan[0].copy <= target.len(),
    ensures
        diff_stream(old, target, pos, old_pos, plan).len() >= plan[0].copy,
        diff_stream(old, target, pos, old_pos, plan).take(plan[0].copy) == sub_old(
            target.subrange(pos, pos + plan[0].copy),
            old,
            old_pos,
        ),
        diff_stream(old, target, pos, old_pos, plan).skip(plan[0].copy) == diff_stream(
            old,
            target,
            pos + plan[0].copy + plan[0].insert,
            old_pos + plan[0].copy + plan[0].seek,
            plan.drop_first(),
        ),
{
    let r = plan[0];
    let diff = diff_stream(old, target, pos, old_pos, plan);
    let head = sub_old(target.subrange(pos, pos + r.copy), old, old_pos);
    let tail = diff_stream(
        old,
        target,
        pos + r.copy + r.insert,
        old_pos + r.copy + r.seek,
        plan.drop_first(),
    );
    assert(diff == head + tail);
    assert(head.len() == r.copy);
    assert(diff.take(r.copy) =~= head);
    assert(diff.skip(r.copy) =~= tail);
}

/// The extra stream of a plan that is not empty begins with the bytes of its
/// first insert block, and goes on with the stream of the other records.
proof fn extra_stream_unfolds(target: Seq<u8>, pos: int, plan: Seq<Record>)
    requires
        plan.len() > 0,
        0 <= pos,
        0 <= plan[0].copy,
        0 <= plan[0].insert,
        pos + plan[0].copy + plan[0].insert <= target.len(),
    ensures
        extra_stream(target, pos, plan).len() >= plan[0].insert,
        extra_stream(target, pos, plan).take(plan[0].insert) == target.subrange(
            pos + plan[0].copy,
            pos + plan[0].copy + plan[0].insert,
        ),
        extra_stream(target, pos, plan).skip(plan[0].insert) == extra_stream(
            target,
            pos + plan[0].copy + plan[0].insert,
            plan.drop_first(),
        ),
{
    let r = plan[0];
    let extra = extra_stream(target, pos, plan);
    let head = target.subrange(pos + r.copy, pos + r.copy + r.insert);
    let tail = extra_stream(target, pos + r.copy + r.insert, plan.drop_first());
    assert(extra == head + tail);
    assert(head.len() == r.insert);
    assert(extra.take(r.insert) =~= head);
    assert(extra.skip(r.insert) =~= tail);
}

/// One turn of the reconstruction loop on a record that passes every check.
proof fn rebuild_takes_record(
    old: Seq<u8>,
    target_len: int,
    out: Seq<u8>,
    old_pos: int,
    ctrl: Seq<u8>,
    diff: Seq<u8>,
    extra: Seq<u8>,
    r: Record,
)
    requires
        out.len() < target_len,
        ctrl.len() >= 24,
        spec_offtin(ctrl.subrange(0, 8)) == r.copy,
        spec_offtin(ctrl.subrange(8, 16)) == r.insert,
        spec_offtin(ctrl.subrange(16, 24)) == r.seek,
        0 <= r.copy <= diff.len(),
        0 <= r.insert <= extra.len(),
        out.len() + r.copy + r.insert <= target_len,
    ensures
        spec_rebuild(old, target_len, out, old_pos, ctrl, diff, extra) == spec_rebuild(
            old,
            target_len,
            out + add_old(diff.take(r.copy), old, old_pos) + extra.take(r.insert),
            old_pos + r.copy + r.seek,
            ctrl.skip(24),
            diff.skip(r.copy),
            extra.skip(r.insert),
        ),
{
}

/// The reconstruction loop, started in the middle of a target on the streams of
/// a plan that tiles the rest, yields the whole target.
pub proof fn rebuild_follows_plan(
    old: Seq<u8>,
    target: Seq<u8>,
    pos: int,
    old_pos: int,
    plan: Seq<Record>,
)
    requires
        0 <= pos <= target.len(),
        tiles(plan, target.len() - pos),
    ensures
        spec_rebuild(
            old,
            target.len() as int,
            target.take(pos),
            old_pos,
            control_stream(plan),
            diff_stream(old, target, pos, old_pos, plan),
            extra_stream(target, pos, plan),
        ) == Ok::<Seq<u8>, ErrorView>(target),
    decreases plan.len(),
{
    let out = target.take(pos);
    if pos >= target.len() {
        assert(out =~= target);
    } else {
        let r = plan[0];
        let rest = plan.drop_first();
        let ctrl = control_stream(plan);
        let diff = diff_stream(old, target, pos, old_pos, plan);
        let extra = extra_stream(target, pos, plan);
        let next = pos + r.copy + r.insert;
        let block = target.subrange(pos, pos + r.copy);
        offtin_inverts_offtout(r.copy);
        offtin_inverts_offtout(r.insert);
        offtin_inverts_offtout(r.seek);
        control_stream_unfolds(plan);
        diff_stream_unfolds(old, target, pos, old_pos, plan);
        extra_stream_unfolds(target, pos, plan);
        add_old_inverts_sub_old(block, old, old_pos);
        rebuild_takes_record(old, target.len() as int, out, old_pos, ctrl, diff, extra, r);
        assert(out + block + extra.take(r.insert) =~= target.take(next));
        rebuild_follows_plan(old, target, next, old_pos + r.copy + r.seek, rest);
    }
}

/// Round trip: for every old file, every target and every plan that tiles the
/// target, decoding the three streams built from them gives exactly the target.
pub proof fn decoding_inverts_encoding(old: Seq<u8>, target: Seq<u8>, plan: Seq<Record>)
    requires
        tiles(plan, target.len() as int),
    ensures
        spec_patch_streams(
            old,
            target.len() as int,
            control_stream(plan),
            diff_stream(old, target, 0, 0, plan),
            extra_stream(target, 0, plan),
        ) == Ok::<Seq<u8>, ErrorView>(target),
{
    assert(target.take(0) =~= Seq::<u8>::empty());
    rebuild_follows_plan(old, target, 0, 0, plan);
}

/// The plan that builds a target as one insert block.
pub open spec fn insert_only(target: Seq<u8>) -> Seq<Record> {
    seq![Record { copy: 0, insert: target.len() as int, seek: 0 }]
}

/// The plan that builds a target as one copy block over the old file from its
/// start.
pub open spec fn copy_only(target: Seq<u8>) -> Seq<Record> {
    seq![Record { copy: target.len() as int, insert: 0, seek: 0 }]
}

/// Every target whose size can be encoded has a delta from every old file: both
/// the plan of one insert block and the plan of one copy block tile it, so that
/// decoding their streams gives the target back.
pub proof fn every_target_has_a_delta(old: Seq<u8>, target: Seq<u8>)
    requires
        target.len() <= max_magnitude(),
    ensures
        tiles(insert_only(target), target.len() as int),
        tiles(copy_only(target), target.len() as int),
        spec_patch_streams(
            old,
            target.len() as int,
            control_stream(insert_only(target)),
            diff_stream(old, target, 0, 0, insert_only(target)),
            extra_stream(target, 0, insert_only(target)),
        ) == Ok::<Seq<u8>, ErrorView>(target),
        spec_patch_streams(
            old,
            target.len() as int,
            control_stream(copy_only(target)),
            diff_stream(old, target, 0, 0, copy_only(target)),
            extra_stream(target, 0, copy_only(target)),
        ) == Ok::<Seq<u8>, ErrorView>(target),
{
    let by_insert = insert_only(target);
    let by_copy = copy_only(target);
    assert(by_insert.drop_first() =~= Seq::<Record>::empty());
    assert(by_copy.drop_first() =~= Seq::<Record>::empty());
    assert(tiles(by_insert.drop_first(), 0));
    assert(tiles(by_copy.drop_first(), 0));
    decoding_inverts_encoding(old, target, by_insert);
    decoding_inverts_encoding(old, target, by_copy);
}

/// Whether `patch` is a delta for `target` built on `plan`: it begins with the
/// magic constant, its header holds two stream lengths that are not negative and
/// the size of the target, and its three streams decompress to the streams of
/// the plan.
pub open spec fn is_delta_for(patch: Seq<u8>, old: Seq<u8>, target: Seq<u8>, plan: Seq<Record>) -> bool {
    let (ctrl_len, diff_len, size) = header_lengths(patch);
    &&& patch.len() >= 32
    &&& patch.subrange(0, 8) == magic()
    &&& ctrl_len >= 0
    &&& diff_len >= 0
    &&& size == target.len()
    &&& tiles(plan, target.len() as int)
    &&& stream_bytes(patch, 32) == control_stream(plan)
    &&& stream_bytes(patch, 32 + ctrl_len) == diff_stream(old, target, 0, 0, plan)
    &&& stream_bytes(patch, 32 + ctrl_len + diff_len) == extra_stream(target, 0, plan)
}

/// Round trip of a whole delta: applying to `old` a delta that was built for
/// `target` gives exactly `target`.
pub proof fn applying_inverts_building(
    patch: Seq<u8>,
    old: Seq<u8>,
    target: Seq<u8>,
    plan: Seq<Record>,
)
    requires
        is_delta_for(patch, old, target, plan),
    ensures
        spec_apply_patch(patch, old) == Ok::<Seq<u8>, ErrorView>(target),
{
    decoding_inverts_encoding(old, target, plan);
}

} // verus!
