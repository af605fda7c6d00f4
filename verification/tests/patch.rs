use shticker_book_unwritten::error::Error;
use shticker_book_unwritten::patch::{
    apply_patch, bsdiff_patch, offtin, patch_file, patch_streams,
};
use std::io::Write;

fn offtout(v: i64) -> [u8; 8] {
    let mut m = v.unsigned_abs();
    let mut out = [0u8; 8];
    for b in out.iter_mut() {
        *b = (m % 256) as u8;
        m /= 256;
    }
    if v < 0 {
        out[7] |= 0x80;
    }
    out
}

fn record(copy: i64, insert: i64, seek: i64) -> Vec<u8> {
    let mut r = Vec::new();
    r.extend_from_slice(&offtout(copy));
    r.extend_from_slice(&offtout(insert));
    r.extend_from_slice(&offtout(seek));
    r
}

fn bz(data: &[u8]) -> Vec<u8> {
    let mut enc = bzip2::write::BzEncoder::new(Vec::new(), bzip2::Compression::best());
    enc.write_all(data).unwrap();
    enc.finish().unwrap()
}

fn delta(target_size: i64, ctrl: &[u8], diff: &[u8], extra: &[u8]) -> Vec<u8> {
    let (c, d, e) = (bz(ctrl), bz(diff), bz(extra));
    let mut out = b"BSDIFF40".to_vec();
    out.extend_from_slice(&offtout(c.len() as i64));
    out.extend_from_slice(&offtout(d.len() as i64));
    out.extend_from_slice(&offtout(target_size));
    out.extend_from_slice(&c);
    out.extend_from_slice(&d);
    out.extend_from_slice(&e);
    out
}

/// Builds the three streams for `target` over `old` from a plan of records.
fn encode(old: &[u8], target: &[u8], plan: &[(i64, i64, i64)]) -> (Vec<u8>, Vec<u8>, Vec<u8>) {
    let (mut ctrl, mut diff, mut extra) = (Vec::new(), Vec::new(), Vec::new());
    let (mut pos, mut old_pos) = (0usize, 0i64);
    for &(copy, insert, seek) in plan {
        ctrl.extend_from_slice(&record(copy, insert, seek));
        for i in 0..copy as usize {
            let at = old_pos + i as i64;
            let o = if at >= 0 && (at as usize) < old.len() { old[at as usize] } else { 0 };
            diff.push(target[pos + i].wrapping_sub(o));
        }
        pos += copy as usize;
        extra.extend_from_slice(&target[pos..pos + insert as usize]);
        pos += insert as usize;
        old_pos += copy + seek;
    }
    (ctrl, diff, extra)
}

#[test]
fn offtin_decodes_sign_and_magnitude() {
    assert_eq!(offtin(&[0, 0, 0, 0, 0, 0, 0, 0]), 0);
    assert_eq!(offtin(&[1, 0, 0, 0, 0, 0, 0, 0]), 1);
    assert_eq!(offtin(&[0x34, 0x12, 0, 0, 0, 0, 0, 0]), 0x1234);
    assert_eq!(offtin(&[1, 0, 0, 0, 0, 0, 0, 0x80]), -1);
    assert_eq!(offtin(&[0, 0, 0, 0, 0, 0, 0, 0x80]), 0);
    assert_eq!(offtin(&[0xff; 8]), -0x7fff_ffff_ffff_ffff);
    assert_eq!(
        offtin(&[0xff, 0xff, 0xff, 0xff, 0xff, 0xff, 0xff, 0x7f]),
        i64::MAX
    );
    assert_eq!(
        offtin(&[0x08, 0x07, 0x06, 0x05, 0x04, 0x03, 0x02, 0x01]),
        0x0102_0304_0506_0708
    );
}

#[test]
fn offtin_is_not_twos_complement() {
    // In two's complement these bytes would be -2.
    assert_eq!(
        offtin(&[0xfe, 0xff, 0xff, 0xff, 0xff, 0xff, 0xff, 0xff]),
        -0x7fff_ffff_ffff_fffe
    );
}

#[test]
fn offtin_reads_only_the_first_eight_bytes() {
    assert_eq!(offtin(&[5, 0, 0, 0, 0, 0, 0, 0, 9, 9, 9]), 5);
}

#[test]
fn offtin_inverts_the_encoder() {
    for v in [0i64, 1, -1, 255, 256, -256, 65_535, 1 << 40, -(1 << 40), i64::MAX, -i64::MAX] {
        assert_eq!(offtin(&offtout(v)), v);
    }
}

#[test]
fn streams_copy_block_adds_old_bytes_with_wraparound() {
    let old = [10u8, 250, 3];
    let diff = [1u8, 10, 0];
    let got = patch_streams(&old, 3, &record(3, 0, 0), &diff, &[]).unwrap();
    assert_eq!(got, vec![11, 4, 3]);
}

#[test]
fn streams_copy_block_outside_old_keeps_diff_bytes() {
    let old = [100u8];
    let diff = [1u8, 2, 3];
    // The old cursor starts at 0: only the first byte has an old byte under it.
    let got = patch_streams(&old, 3, &record(3, 0, 0), &diff, &[]).unwrap();
    assert_eq!(got, vec![101, 2, 3]);
}

#[test]
fn streams_negative_old_cursor_is_legal() {
    let old = [7u8, 8, 9];
    let mut ctrl = record(0, 1, -2);
    ctrl.extend_from_slice(&record(3, 0, 0));
    let diff = [1u8, 1, 1];
    let got = patch_streams(&old, 4, &ctrl, &diff, b"x").unwrap();
    // After the seek the old cursor is -2: old bytes line up with the third byte only.
    assert_eq!(got, vec![b'x', 1, 1, 8]);
}

#[test]
fn streams_seek_far_outside_is_legal() {
    let old = [7u8, 8, 9];
    let mut ctrl = record(1, 0, i64::MAX);
    ctrl.extend_from_slice(&record(1, 0, i64::MAX));
    ctrl.extend_from_slice(&record(1, 0, -i64::MAX));
    let diff = [1u8, 1, 1];
    let got = patch_streams(&old, 3, &ctrl, &diff, &[]).unwrap();
    assert_eq!(got, vec![8, 1, 1]);
}

#[test]
fn streams_insert_block_is_verbatim() {
    let got = patch_streams(b"abc", 5, &record(0, 5, 0), &[], b"hello").unwrap();
    assert_eq!(got, b"hello".to_vec());
}

#[test]
fn streams_empty_target_reads_nothing() {
    assert_eq!(patch_streams(b"abc", 0, &[], &[], &[]).unwrap(), Vec::<u8>::new());
    assert_eq!(patch_streams(b"abc", 0, &[1, 2, 3], &[4], &[5]).unwrap(), Vec::<u8>::new());
}

#[test]
fn streams_copy_past_target_fails_sanity_check_0() {
    let r = patch_streams(b"abc", 2, &record(3, 0, 0), &[0, 0, 0], &[]);
    assert!(matches!(r, Err(Error::PatchSanityCheckFail(0))));
}

#[test]
fn streams_huge_copy_fails_sanity_check_0() {
    let r = patch_streams(b"abc", 2, &record(i64::MAX, 0, 0), &[0, 0, 0], &[]);
    assert!(matches!(r, Err(Error::PatchSanityCheckFail(0))));
    let r = patch_streams(b"abc", u64::MAX, &record(i64::MAX, i64::MAX, 0), &[], &[]);
    assert!(matches!(r, Err(Error::Decode(_, _))));
}

#[test]
fn streams_insert_past_target_fails_sanity_check_1() {
    let r = patch_streams(b"abc", 2, &record(1, 2, 0), &[0], b"xy");
    assert!(matches!(r, Err(Error::PatchSanityCheckFail(1))));
}

#[test]
fn streams_negative_lengths_are_bad_sizes() {
    let r = patch_streams(b"abc", 2, &record(-1, 0, 0), &[0], &[]);
    assert!(matches!(r, Err(Error::BadPatchSize)));
    let r = patch_streams(b"abc", 2, &record(1, -1, 0), &[0], &[]);
    assert!(matches!(r, Err(Error::BadPatchSize)));
}

#[test]
fn streams_short_control_record_is_a_decode_error() {
    let mut ctrl = record(1, 0, 0);
    ctrl.truncate(23);
    match patch_streams(b"abc", 1, &ctrl, &[0], &[]) {
        Err(Error::Decode(what, _)) => assert_eq!(what, "control stream"),
        other => panic!("{:?}", other),
    }
    // A second record is needed, and only part of it is there.
    let mut ctrl = record(1, 0, 0);
    ctrl.extend_from_slice(&[0; 10]);
    match patch_streams(b"abc", 2, &ctrl, &[0, 0], &[]) {
        Err(Error::Decode(what, _)) => assert_eq!(what, "control stream"),
        other => panic!("{:?}", other),
    }
}

#[test]
fn streams_short_diff_and_extra_are_decode_errors() {
    match patch_streams(b"abc", 3, &record(3, 0, 0), &[0, 0], &[]) {
        Err(Error::Decode(what, cause)) => {
            assert_eq!(what, "diff stream");
            assert_eq!(cause, "stream is corrupt or ends early");
        }
        other => panic!("{:?}", other),
    }
    match patch_streams(b"abc", 3, &record(1, 2, 0), &[0], b"x") {
        Err(Error::Decode(what, _)) => assert_eq!(what, "extra stream"),
        other => panic!("{:?}", other),
    }
}

#[test]
fn streams_records_without_progress_end_with_the_control_stream() {
    let mut ctrl = Vec::new();
    for _ in 0..5 {
        ctrl.extend_from_slice(&record(0, 0, 1));
    }
    let r = patch_streams(b"abc", 1, &ctrl, &[], &[]);
    assert!(matches!(r, Err(Error::Decode(_, _))));
}

#[test]
fn streams_round_trip_over_plans() {
    let old: Vec<u8> = (0..200u32).map(|i| (i * 7 % 256) as u8).collect();
    let target: Vec<u8> = (0..300u32).map(|i| (i * 13 % 251) as u8).collect();
    let plans: Vec<Vec<(i64, i64, i64)>> = vec![
        vec![(0, 300, 0)],
        vec![(300, 0, 0)],
        vec![(100, 50, -30), (20, 0, 500), (30, 100, -1000)],
        vec![(0, 0, 5), (150, 0, -150), (150, 0, 0), (0, 0, 0)],
    ];
    for plan in plans {
        let (ctrl, diff, extra) = encode(&old, &target, &plan);
        let got = patch_streams(&old, target.len() as u64, &ctrl, &diff, &extra).unwrap();
        assert_eq!(got, target);
    }
}

#[test]
fn apply_patch_round_trip_through_bzip2() {
    let old = b"the quick brown fox jumps over the lazy dog".to_vec();
    let target = b"the quick brown cat jumps over the lazy dog, twice".to_vec();
    let plan = [(43i64, 7i64, 0i64)];
    let (ctrl, diff, extra) = encode(&old, &target, &plan);
    let patch = delta(target.len() as i64, &ctrl, &diff, &extra);
    assert_eq!(apply_patch(&patch, &old).unwrap(), target);
}

#[test]
fn apply_patch_round_trip_on_empty_old_and_empty_target() {
    let target = b"fresh".to_vec();
    let (ctrl, diff, extra) = encode(&[], &target, &[(2, 3, 0)]);
    let patch = delta(5, &ctrl, &diff, &extra);
    assert_eq!(apply_patch(&patch, &[]).unwrap(), target);

    let (ctrl, diff, extra) = encode(b"old", &[], &[]);
    let patch = delta(0, &ctrl, &diff, &extra);
    assert_eq!(apply_patch(&patch, b"old").unwrap(), Vec::<u8>::new());
}

#[test]
fn apply_patch_large_round_trip() {
    let old: Vec<u8> = (0..100_000u32).map(|i| (i % 253) as u8).collect();
    let mut target = old.clone();
    for i in (0..target.len()).step_by(997) {
        target[i] = target[i].wrapping_add(1);
    }
    target.extend_from_slice(b"tail");
    let (ctrl, diff, extra) = encode(&old, &target, &[(100_000, 4, 0)]);
    let patch = delta(target.len() as i64, &ctrl, &diff, &extra);
    assert_eq!(apply_patch(&patch, &old).unwrap(), target);
}

#[test]
fn apply_patch_rejects_bad_magic_and_short_header() {
    let (ctrl, diff, extra) = encode(b"", b"x", &[(0, 1, 0)]);
    let mut patch = delta(1, &ctrl, &diff, &extra);
    patch[7] = b'1';
    assert!(matches!(apply_patch(&patch, b""), Err(Error::BadPatchVersion)));
    assert!(matches!(apply_patch(b"BSDIFF40", b""), Err(Error::BadPatchVersion)));
    assert!(matches!(apply_patch(b"", b""), Err(Error::BadPatchVersion)));
    assert!(matches!(apply_patch(&[0u8; 31], b""), Err(Error::BadPatchVersion)));
}

#[test]
fn apply_patch_rejects_negative_header_lengths() {
    for field in 0..3 {
        let mut patch = b"BSDIFF40".to_vec();
        for i in 0..3 {
            patch.extend_from_slice(&offtout(if i == field { -1 } else { 0 }));
        }
        assert!(matches!(apply_patch(&patch, b""), Err(Error::BadPatchSize)));
    }
}

#[test]
fn apply_patch_header_only_with_empty_target() {
    let mut patch = b"BSDIFF40".to_vec();
    patch.extend_from_slice(&offtout(0));
    patch.extend_from_slice(&offtout(0));
    patch.extend_from_slice(&offtout(0));
    assert_eq!(apply_patch(&patch, b"abc").unwrap(), Vec::<u8>::new());
}

#[test]
fn apply_patch_garbage_streams_are_decode_errors() {
    let mut patch = b"BSDIFF40".to_vec();
    patch.extend_from_slice(&offtout(4));
    patch.extend_from_slice(&offtout(4));
    patch.extend_from_slice(&offtout(1));
    patch.extend_from_slice(b"not bzip2 at all");
    match apply_patch(&patch, b"abc") {
        Err(Error::Decode(what, _)) => assert_eq!(what, "control stream"),
        other => panic!("{:?}", other),
    }
}

#[test]
fn apply_patch_stream_offsets_past_the_end_are_decode_errors() {
    let ctrl = bz(&record(1, 0, 0));
    let mut patch = b"BSDIFF40".to_vec();
    patch.extend_from_slice(&offtout(ctrl.len() as i64));
    patch.extend_from_slice(&offtout(i64::MAX));
    patch.extend_from_slice(&offtout(1));
    patch.extend_from_slice(&ctrl);
    match apply_patch(&patch, b"abc") {
        Err(Error::Decode(what, _)) => assert_eq!(what, "diff stream"),
        other => panic!("{:?}", other),
    }
    let mut patch = b"BSDIFF40".to_vec();
    patch.extend_from_slice(&offtout(i64::MAX));
    patch.extend_from_slice(&offtout(i64::MAX));
    patch.extend_from_slice(&offtout(1));
    assert!(matches!(apply_patch(&patch, b"abc"), Err(Error::Decode(_, _))));
}

#[test]
fn apply_patch_truncated_stream_is_a_decode_error() {
    let target = vec![b'z'; 5000];
    let (ctrl, diff, extra) = encode(&[], &target, &[(0, 5000, 0)]);
    let mut patch = delta(5000, &ctrl, &diff, &extra);
    patch.truncate(patch.len() - 5);
    match apply_patch(&patch, &[]) {
        Err(Error::Decode(what, _)) => assert_eq!(what, "extra stream"),
        other => panic!("{:?}", other),
    }
}

#[test]
fn apply_patch_copy_past_target_fails_sanity_check_0() {
    let patch = delta(2, &record(3, 0, 0), &[0, 0, 0], &[]);
    assert!(matches!(apply_patch(&patch, b"abc"), Err(Error::PatchSanityCheckFail(0))));
}

#[test]
fn apply_patch_insert_past_target_fails_sanity_check_1() {
    let patch = delta(2, &record(1, 5, 0), &[0], b"hello");
    assert!(matches!(apply_patch(&patch, b"abc"), Err(Error::PatchSanityCheckFail(1))));
}

#[test]
fn bsdiff_patch_writes_only_on_success() {
    let old = b"abc".to_vec();
    let (ctrl, diff, extra) = encode(&old, b"abd!", &[(3, 1, 0)]);
    let patch = delta(4, &ctrl, &diff, &extra);
    let mut new = b"previous".to_vec();
    bsdiff_patch(&patch, &old, &mut new).unwrap();
    assert_eq!(new, b"abd!".to_vec());

    let bad = delta(2, &record(3, 0, 0), &[0, 0, 0], &[]);
    let mut new = b"previous".to_vec();
    assert!(bsdiff_patch(&bad, &old, &mut new).is_err());
    assert_eq!(new, b"previous".to_vec());
}

#[test]
fn patch_file_replaces_content_or_leaves_it() {
    let mut file = b"abc".to_vec();
    let (ctrl, diff, extra) = encode(&file, b"abd!", &[(3, 1, 0)]);
    let patch = delta(4, &ctrl, &diff, &extra);
    patch_file(&patch, &mut file).unwrap();
    assert_eq!(file, b"abd!".to_vec());

    let bad = delta(9, &record(3, 0, 0), &[0, 0, 0], &[]);
    let mut file = b"abc".to_vec();
    assert!(matches!(patch_file(&bad, &mut file), Err(Error::Decode(_, _))));
    assert_eq!(file, b"abc".to_vec());
}
