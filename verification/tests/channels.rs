//! Channel routing between host ports and working buffers.

use nam_plug::channels::{
    copy_delayed_dry_to_output, copy_output_from_sub_block, copy_silence_to_output,
    extract_channels, has_non_finite, is_finite_bits, ChannelPair,
};

const N: usize = 8;

fn extract(
    pair_l: Option<ChannelPair<f32>>,
    pair_r: Option<ChannelPair<f32>>,
) -> (Vec<f32>, Vec<f32>, bool, bool, bool, u32) {
    let mut buf_host_l = vec![f32::NAN; N];
    let mut buf_host_r = vec![f32::NAN; N];
    let mut process_mono = false;
    let mut count = 0u32;
    let outputs = extract_channels(
        pair_l,
        pair_r,
        &mut buf_host_l,
        &mut buf_host_r,
        &mut count,
        &mut process_mono,
        N,
        0.0,
    );
    (
        buf_host_l,
        buf_host_r,
        outputs.left,
        outputs.right,
        process_mono,
        count,
    )
}

#[test]
fn stereo_input_output_reads_each_channel_independently() {
    let in_l = [0.1f32; N];
    let in_r = [0.2f32; N];
    let (buf_l, buf_r, ol, or, process_mono, count) = extract(
        Some(ChannelPair::InputOutput(&in_l)),
        Some(ChannelPair::InputOutput(&in_r)),
    );
    assert_eq!(buf_l, vec![0.1; N]);
    assert_eq!(buf_r, vec![0.2; N]);
    assert!(ol);
    assert!(or);
    assert!(!process_mono, "stereo port must start in stereo mode");
    assert_eq!(count, 2);
}

#[test]
fn mono_port_mirrors_l_into_r_and_stays_mono() {
    let in_l = [0.5f32; N];
    let (buf_l, buf_r, ol, or, process_mono, count) =
        extract(Some(ChannelPair::InputOutput(&in_l)), None);
    assert_eq!(buf_l, vec![0.5; N]);
    assert_eq!(buf_r, vec![0.5; N]);
    assert!(ol);
    assert!(!or);
    assert!(process_mono, "mono port must stay on the mono path");
    assert_eq!(count, 1);
}

#[test]
fn mono_in_stereo_out_output_only_r_mirrors_l() {
    let in_l = [0.3f32; N];
    let (buf_l, buf_r, ol, or, process_mono, count) = extract(
        Some(ChannelPair::InputOutput(&in_l)),
        Some(ChannelPair::OutputOnly),
    );
    assert_eq!(buf_l, vec![0.3; N]);
    assert_eq!(buf_r, vec![0.3; N]);
    assert!(ol);
    assert!(or);
    assert!(process_mono, "no R input => mono broadcast to R output");
    assert_eq!(count, 2);
}

#[test]
fn stereo_in_place_reads_before_writing_and_detects_aliasing() {
    let shared_l = [0.4f32; N];
    let shared_r = [0.7f32; N];
    let (buf_l, buf_r, ol, or, process_mono, count) = extract(
        Some(ChannelPair::InPlace(&shared_l)),
        Some(ChannelPair::InPlace(&shared_r)),
    );
    assert_eq!(buf_l, vec![0.4; N]);
    assert_eq!(buf_r, vec![0.7; N]);
    assert!(ol);
    assert!(or);
    assert!(!process_mono);
    assert_eq!(count, 2);
}

#[test]
fn stereo_input_only_r_reads_input_without_output() {
    let in_l = [0.1f32; N];
    let in_r = [0.9f32; N];
    let (buf_l, buf_r, ol, or, process_mono, count) = extract(
        Some(ChannelPair::InputOutput(&in_l)),
        Some(ChannelPair::InputOnly(&in_r)),
    );
    assert_eq!(buf_l, vec![0.1; N]);
    assert_eq!(buf_r, vec![0.9; N]);
    assert!(ol);
    assert!(!or);
    assert!(!process_mono, "a real R input marks the port stereo");
    assert_eq!(count, 2);
}

#[test]
fn stereo_output_only_uses_l_as_input() {
    let (buf_l, buf_r, ol, or, process_mono, count) =
        extract(Some(ChannelPair::OutputOnly), Some(ChannelPair::OutputOnly));
    assert_eq!(buf_l, vec![0.0; N]);
    assert_eq!(buf_r, vec![0.0; N]);
    assert!(ol);
    assert!(or);
    assert!(process_mono);
    assert_eq!(count, 2);
}

fn finite(s: f32) -> bool {
    is_finite_bits(s.to_bits())
}

#[test]
fn finite_bit_patterns() {
    assert!(is_finite_bits(0.0f32.to_bits()));
    assert!(is_finite_bits((-1.5f32).to_bits()));
    assert!(is_finite_bits(f32::MAX.to_bits()));
    assert!(is_finite_bits(f32::MIN_POSITIVE.to_bits()));
    assert!(!is_finite_bits(f32::INFINITY.to_bits()));
    assert!(!is_finite_bits(f32::NEG_INFINITY.to_bits()));
    assert!(!is_finite_bits(f32::NAN.to_bits()));
}

#[test]
fn output_is_contained_and_cut_to_the_host_buffer() {
    let mut out_l = [9.0f32; 4];
    let mut out_r = [9.0f32; 4];
    let src_l = [1.0f32, f32::NAN, 3.0, 4.0];
    let src_r = [-1.0f32, -2.0, f32::INFINITY, -4.0];
    copy_output_from_sub_block(
        Some(&mut out_l),
        Some(&mut out_r),
        &src_l,
        &src_r,
        4,
        1,
        false,
        finite,
        0.0,
    );
    assert_eq!(out_l, [9.0, 1.0, 0.0, 3.0]);
    assert_eq!(out_r, [9.0, -1.0, -2.0, 0.0]);

    // Mono: the right output gets the left signal. An offset past the end writes nothing.
    copy_output_from_sub_block(
        None,
        Some(&mut out_r),
        &src_l,
        &src_r,
        2,
        0,
        true,
        finite,
        0.0,
    );
    assert_eq!(out_r, [1.0, 0.0, -2.0, 0.0]);
    copy_output_from_sub_block(
        Some(&mut out_l),
        None,
        &src_l,
        &src_r,
        4,
        7,
        true,
        finite,
        0.0,
    );
    assert_eq!(out_l, [9.0, 1.0, 0.0, 3.0]);
}

#[test]
fn dry_and_silence_reach_the_outputs() {
    let mut out_l = [9.0f32; 5];
    let mut out_r = [9.0f32; 5];
    copy_delayed_dry_to_output(
        Some(&mut out_l),
        Some(&mut out_r),
        &[1.0f32, 2.0],
        &[3.0f32, 4.0],
        2,
        false,
        finite,
        0.0,
    );
    assert_eq!(out_l, [9.0, 9.0, 1.0, 2.0, 9.0]);
    assert_eq!(out_r, [9.0, 9.0, 3.0, 4.0, 9.0]);
    copy_silence_to_output(Some(&mut out_l), Some(&mut out_r), 3, 10, 0.0);
    assert_eq!(out_l, [9.0, 9.0, 1.0, 0.0, 0.0]);
    assert_eq!(out_r, [9.0, 9.0, 3.0, 0.0, 0.0]);
}

#[test]
fn non_finite_input_is_found() {
    let good = [0.5f32, -0.5];
    let bad = [0.5f32, f32::NAN];
    assert!(!has_non_finite(&good, &good, 2, false, finite));
    assert!(has_non_finite(&bad, &good, 2, true, finite));
    assert!(has_non_finite(&good, &bad, 2, false, finite));
    // In mono the right channel does not count, nor what lies behind the block.
    assert!(!has_non_finite(&good, &bad, 2, true, finite));
    assert!(!has_non_finite(&bad, &bad, 1, false, finite));
}
