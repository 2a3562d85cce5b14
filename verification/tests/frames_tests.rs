use webrtc_audio_streamer::frames::{split_frames, FRAME_SIZE, SAMPLE_DURATION_MS};

fn audio(len: usize) -> Vec<u8> {
    (0..len).map(|i| (i % 251) as u8).collect()
}

#[test]
fn frame_is_twenty_ms_of_16khz_mono_16bit() {
    assert_eq!(FRAME_SIZE, 640);
    assert_eq!(SAMPLE_DURATION_MS, 20);
}

#[test]
fn empty_audio_has_no_frame() {
    assert!(split_frames(&[]).is_empty());
}

#[test]
fn short_audio_is_one_short_frame() {
    let pcm = audio(5);
    let frames = split_frames(&pcm);
    assert_eq!(frames, vec![pcm.clone()]);
}

#[test]
fn exact_frame_is_one_frame() {
    let frames = split_frames(&audio(640));
    assert_eq!(frames.len(), 1);
    assert_eq!(frames[0].len(), 640);
}

#[test]
fn one_byte_more_starts_a_second_frame() {
    let pcm = audio(641);
    let frames = split_frames(&pcm);
    assert_eq!(frames.len(), 2);
    assert_eq!(frames[0], pcm[..640].to_vec());
    assert_eq!(frames[1], vec![pcm[640]]);
}

#[test]
fn frames_put_back_together_give_the_audio() {
    let pcm = audio(1300);
    let frames = split_frames(&pcm);
    let lens: Vec<usize> = frames.iter().map(|f| f.len()).collect();
    assert_eq!(lens, vec![640, 640, 20]);
    assert_eq!(frames.concat(), pcm);
}

#[test]
fn frame_count_rounds_up() {
    for len in [1usize, 639, 640, 641, 1279, 1280, 1281, 6400] {
        assert_eq!(split_frames(&audio(len)).len(), (len + 639) / 640);
    }
}
