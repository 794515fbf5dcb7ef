use spectrusty_tutorial::audio::{produce_audio_frame, produce_mono_audio_frame, AudioMix};
use spectrusty_tutorial::state::EmulatorState;

#[test]
fn the_tape_is_heard_only_when_asked_for() {
    let mut state = EmulatorState::new();
    assert_eq!(state.render_audio(), AudioMix::SpeakerOnly);
    state.audible_tape = true;
    assert_eq!(state.render_audio(), AudioMix::SpeakerAndTape);
}

#[test]
fn stereo_samples_are_interleaved() {
    let mut out: Vec<f32> = Vec::new();
    produce_audio_frame(2, &mut out, &vec![0.1, 0.2, 0.3], &vec![-0.1, -0.2, -0.3], 0.0);
    assert_eq!(out, vec![0.1, -0.1, 0.2, -0.2, 0.3, -0.3]);
}

#[test]
fn one_channel_gets_the_left_samples() {
    let mut out: Vec<i16> = vec![9; 10];
    produce_audio_frame(1, &mut out, &vec![1, 2, 3], &vec![-1, -2, -3], 0);
    assert_eq!(out, vec![1, 2, 3]);
}

#[test]
fn channels_beyond_the_second_are_silent_in_a_new_buffer() {
    let mut out: Vec<u16> = Vec::new();
    produce_audio_frame(4, &mut out, &vec![1, 2], &vec![3, 4], 0x8000);
    assert_eq!(out, vec![1, 3, 0x8000, 0x8000, 2, 4, 0x8000, 0x8000]);
}

#[test]
fn nothing_the_buffer_held_is_kept() {
    let mut out: Vec<i16> = vec![7, 7, 7, 7, 7];
    produce_audio_frame(3, &mut out, &vec![1, 2], &vec![3, 4], 0);
    assert_eq!(out, vec![1, 3, 0, 2, 4, 0]);
    let mut out: Vec<i16> = vec![7; 20];
    produce_audio_frame(3, &mut out, &vec![1], &vec![3], 0);
    assert_eq!(out, vec![1, 3, 0]);
}

#[test]
fn samples_without_a_partner_are_left_out() {
    let mut out: Vec<i16> = vec![5, 5, 5];
    produce_audio_frame(2, &mut out, &vec![1, 2, 3], &vec![-1], 0);
    assert_eq!(out, vec![1, -1, 0, 0, 0, 0]);
    let mut out: Vec<i16> = Vec::new();
    produce_audio_frame(2, &mut out, &vec![1], &vec![-1, -2, -3], 0);
    assert_eq!(out, vec![1, -1]);
}

#[test]
fn a_silent_frame_is_silent_whatever_the_buffer_held() {
    for channels in 1..=6 {
        let mut out: Vec<u16> = vec![1, 2, 3, 4, 5, 6, 7];
        produce_audio_frame(channels, &mut out, &vec![0x8000; 3], &vec![0x8000; 3], 0x8000);
        assert_eq!(out, vec![0x8000; 3 * channels]);
    }
    let mut out: Vec<f32> = vec![0.5, -0.5, 0.25];
    produce_audio_frame(3, &mut out, &vec![0.0], &vec![0.0], 0.0);
    assert_eq!(out, vec![0.0, 0.0, 0.0]);
}

#[test]
fn a_frame_without_sound_is_silence_of_its_length() {
    let silence = vec![0.0f32; 882];
    let mut out: Vec<f32> = Vec::new();
    produce_audio_frame(2, &mut out, &silence, &silence, 0.0);
    assert_eq!(out.len(), 1764);
    assert!(out.iter().all(|sample| *sample == 0.0));
}

#[test]
fn a_frame_without_samples_is_empty() {
    let mut out: Vec<f32> = vec![1.0, 2.0];
    produce_audio_frame(2, &mut out, &Vec::new(), &Vec::new(), 0.0);
    assert!(out.is_empty());
}

#[test]
fn a_mono_sample_goes_to_every_channel() {
    let mut out: Vec<f64> = vec![9.0];
    produce_mono_audio_frame(3, &mut out, &vec![0.5, -0.5]);
    assert_eq!(out, vec![0.5, 0.5, 0.5, -0.5, -0.5, -0.5]);
    produce_mono_audio_frame(1, &mut out, &vec![0.25]);
    assert_eq!(out, vec![0.25]);
    produce_mono_audio_frame(2, &mut out, &Vec::new());
    assert!(out.is_empty());
}
