use kakaia::{filter_frames, pad_to_frames, padding_for};

#[test]
fn padding_fills_the_last_frame() {
    assert_eq!(padding_for(0, 480), 0);
    assert_eq!(padding_for(1, 480), 479);
    assert_eq!(padding_for(479, 480), 1);
    assert_eq!(padding_for(480, 480), 0);
    assert_eq!(padding_for(481, 480), 479);
    assert_eq!(padding_for(1000, 480), 440);
    assert_eq!(padding_for(960, 480), 0);
    assert_eq!(padding_for(7, 1), 0);
    assert_eq!(padding_for(usize::MAX, 2), 1);
    assert_eq!(padding_for(usize::MAX, usize::MAX), 0);
    assert_eq!(padding_for(3, usize::MAX), usize::MAX - 3);
}

#[test]
fn padded_length_is_the_next_multiple() {
    for frame_size in [1usize, 2, 3, 7, 480] {
        for len in 0..1000usize {
            let padding = padding_for(len, frame_size);
            assert!(padding < frame_size);
            assert_eq!((len + padding) % frame_size, 0);
            assert_eq!(padding == 0, len % frame_size == 0);
        }
    }
}

#[test]
fn pad_to_frames_appends_silence() {
    let mut samples: Vec<f32> = vec![0.5, -0.25, 1.0];
    pad_to_frames(&mut samples, 4, 0.0);
    assert_eq!(samples, vec![0.5, -0.25, 1.0, 0.0]);
    let mut whole: Vec<i16> = vec![1, 2, 3, 4, 5];
    pad_to_frames(&mut whole, 3, 0);
    assert_eq!(whole, vec![1, 2, 3, 4, 5, 0]);
}

#[test]
fn pad_to_frames_leaves_whole_frames_alone() {
    let mut samples: Vec<i16> = vec![1, 2, 3, 4];
    pad_to_frames(&mut samples, 2, 0);
    assert_eq!(samples, vec![1, 2, 3, 4]);
    let mut empty: Vec<f32> = vec![];
    pad_to_frames(&mut empty, 480, 0.0);
    assert!(empty.is_empty());
}

#[test]
fn pad_to_frames_of_a_noise_filter() {
    let mut samples: Vec<f32> = vec![0.1; 1000];
    pad_to_frames(&mut samples, 480, 0.0);
    assert_eq!(samples.len(), 1440);
    assert!(samples[..1000].iter().all(|s| *s == 0.1));
    assert!(samples[1000..].iter().all(|s| *s == 0.0));
    assert_eq!(samples.chunks(480).count(), 3);
    assert!(samples.chunks(480).all(|frame| frame.len() == 480));
}

#[test]
fn filter_frames_hands_over_each_frame_in_order() {
    let samples: Vec<i16> = vec![1, 2, 3, 4, 5, 6];
    let seen: Vec<Vec<i16>> = Vec::new();
    let (seen, out) = filter_frames(&samples, 2, seen, &|mut seen: Vec<Vec<i16>>, frame: Vec<i16>| {
        seen.push(frame.clone());
        (seen, frame)
    });
    assert_eq!(seen, vec![vec![1, 2], vec![3, 4], vec![5, 6]]);
    assert_eq!(out, samples);
}

#[test]
fn filter_frames_carries_the_state_from_frame_to_frame() {
    let samples: Vec<i16> = vec![1, 2, 3, 4, 5, 6];
    let (frames, out) = filter_frames(&samples, 2, 0i16, &|count: i16, frame: Vec<i16>| {
        (count + 1, frame.iter().map(|s| s + 10 * count).collect())
    });
    assert_eq!(frames, 3);
    assert_eq!(out, vec![1, 2, 13, 14, 25, 26]);
}

#[test]
fn filter_frames_puts_together_what_the_filter_gives() {
    let samples: Vec<f32> = vec![0.5, 1.5, 2.5, 3.5];
    let (total, out) = filter_frames(&samples, 2, 0.0f32, &|sum: f32, frame: Vec<f32>| {
        let mean = (frame[0] + frame[1]) / 2.0;
        (sum + mean, vec![mean])
    });
    assert_eq!(total, 4.0);
    assert_eq!(out, vec![1.0, 3.0]);
}

#[test]
fn filter_frames_of_nothing() {
    let samples: Vec<i16> = vec![];
    let (state, out) = filter_frames(&samples, 480, 7u8, &|state: u8, frame: Vec<i16>| (state + 1, frame));
    assert_eq!(state, 7);
    assert!(out.is_empty());
}

#[test]
fn filter_frames_after_padding() {
    let mut samples: Vec<i16> = (1..=5).collect();
    pad_to_frames(&mut samples, 3, 0);
    let (frames, out) = filter_frames(&samples, 3, 0usize, &|count: usize, frame: Vec<i16>| {
        (count + 1, frame.iter().rev().cloned().collect())
    });
    assert_eq!(frames, 2);
    assert_eq!(out, vec![3, 2, 1, 0, 5, 4]);
}
