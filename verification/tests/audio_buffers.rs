use synth_host::buffers::{interleave_stereo, Scratch};

#[test]
fn render_scratch_survives_shrinking_blocks() {
    // A block of 256 samples followed by one of 128 must not shrink the
    // scratch buffer, and the shorter block only touches its own prefix.
    let mut scratch: Scratch<f32> = Scratch::new();
    scratch.prepare(256, 0.0);
    assert_eq!(scratch.len(), 256);
    scratch.buf[255] = 0.5;

    scratch.prepare(128, 0.0);
    assert_eq!(scratch.len(), 256);
    // Samples beyond the requested block keep their values.
    assert_eq!(scratch.buf[255], 0.5);
    let block = &scratch.buf[..128];
    assert_eq!(block.len(), 128);
}

#[test]
fn scratch_grows_and_keeps_prefix() {
    let mut scratch: Scratch<i32> = Scratch::new();
    scratch.prepare(4, 7);
    assert_eq!(scratch.buf, vec![7, 7, 7, 7]);
    scratch.buf[0] = 1;
    scratch.prepare(6, 9);
    assert_eq!(scratch.buf, vec![1, 7, 7, 7, 9, 9]);
}

#[test]
fn interleaving_alternates_the_channels() {
    let left = vec![1.0f32, 2.0, 3.0];
    let right = vec![-1.0f32, -2.0, -3.0];
    let mut out: Vec<f32> = Vec::new();
    interleave_stereo(&left, &right, &mut out);
    assert_eq!(out, vec![1.0, -1.0, 2.0, -2.0, 3.0, -3.0]);
}
