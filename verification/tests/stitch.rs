use doombox::stitch::{deinterleave, rescale_sample, stitch};

fn ramp(from: i16, len: usize) -> Vec<i16> {
    (0..len).map(|i| from + i as i16).collect()
}

#[test]
fn rescale_multiplies_by_four() {
    assert_eq!(rescale_sample(0), 0);
    assert_eq!(rescale_sample(1), 4);
    assert_eq!(rescale_sample(511), 2044);
    assert_eq!(rescale_sample(-1), -4);
    assert_eq!(rescale_sample(8191), 32764);
    assert_eq!(rescale_sample(-8192), -32768);
}

#[test]
fn rescale_wraps_beyond_sixteen_bits() {
    assert_eq!(rescale_sample(8192), -32768);
    assert_eq!(rescale_sample(8193), -32764);
    assert_eq!(rescale_sample(16384), 0);
    assert_eq!(rescale_sample(i16::MAX), -4);
    assert_eq!(rescale_sample(i16::MIN), 0);
    assert_eq!(rescale_sample(-8193), 32764);
}

#[test]
fn rescale_agrees_with_shift_everywhere() {
    let mut s = i16::MIN;
    loop {
        assert_eq!(rescale_sample(s), s << 2);
        assert_eq!(rescale_sample(s), s.wrapping_mul(4));
        if s == i16::MAX {
            break;
        }
        s += 1;
    }
}

#[test]
fn deinterleave_splits_left_and_right() {
    let mut chunk = vec![0i16; 1024];
    for frame in 0..512 {
        chunk[2 * frame] = frame as i16;
        chunk[2 * frame + 1] = -(frame as i16);
    }
    let (left, right) = deinterleave(&chunk);
    assert_eq!(left.len(), 512);
    assert_eq!(right.len(), 512);
    for frame in 0..512 {
        assert_eq!(left[frame], 4 * frame as i16);
        assert_eq!(right[frame], -4 * (frame as i16));
    }
}

#[test]
fn first_chunk_is_held_back() {
    let mut pending: Option<Vec<i16>> = None;
    let out = stitch(&mut pending, vec![1, 2, 3]);
    assert_eq!(out, None);
    assert_eq!(pending, Some(vec![1, 2, 3]));
}

#[test]
fn second_chunk_releases_first_with_one_sample_appended() {
    let mut pending: Option<Vec<i16>> = None;
    assert_eq!(stitch(&mut pending, vec![1, 2, 3]), None);
    let out = stitch(&mut pending, vec![10, 20, 30]);
    assert_eq!(out, Some(vec![1, 2, 3, 10]));
    assert_eq!(pending, Some(vec![10, 20, 30]));
}

#[test]
fn stitch_continuity_over_many_chunks() {
    let chunks: Vec<Vec<i16>> = (0..8).map(|k| ramp(100 * k, 16)).collect();
    let mut pending: Option<Vec<i16>> = None;
    for k in 0..chunks.len() {
        let out = stitch(&mut pending, chunks[k].clone());
        if k == 0 {
            assert_eq!(out, None);
        } else {
            let mut expected = chunks[k - 1].clone();
            expected.push(chunks[k][0]);
            assert_eq!(out, Some(expected));
        }
        assert_eq!(pending.as_ref(), Some(&chunks[k]));
    }
}

#[test]
fn stitch_of_single_sample_chunks() {
    let mut pending: Option<Vec<i16>> = None;
    assert_eq!(stitch(&mut pending, vec![7]), None);
    assert_eq!(stitch(&mut pending, vec![9]), Some(vec![7, 9]));
    assert_eq!(stitch(&mut pending, vec![-1]), Some(vec![9, -1]));
}
