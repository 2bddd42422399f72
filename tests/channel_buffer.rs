use dictara::channel_buffer::ChannelBuffer;
use dictara::recorder::{SinkGate, OUTPUT_BITS_PER_SAMPLE, OUTPUT_CHANNELS, OUTPUT_SAMPLE_RATE};
use rubato::{FftFixedInOut, Resampler};
use std::io::Cursor;

fn interleaved(frames: usize, channels: usize, start: i32) -> Vec<i32> {
    let mut v = Vec::new();
    for f in 0..frames {
        for c in 0..channels {
            v.push((start + f as i32) * 10 + c as i32);
        }
    }
    v
}

#[test]
fn new_buffer_is_empty() {
    let b: ChannelBuffer<i32> = ChannelBuffer::new(2, 4);
    assert_eq!(b.channel_count(), 2);
    assert_eq!(b.chunk_size(), 4);
    assert_eq!(b.pending_frames(), 0);
}

#[test]
fn feed_deinterleaves_and_keeps_remainder() {
    let mut b: ChannelBuffer<i32> = ChannelBuffer::new(2, 4);
    // three frames: no chunk yet
    let chunks = b.feed(&interleaved(3, 2, 0));
    assert!(chunks.is_empty());
    assert_eq!(b.pending_frames(), 3);
    // two more frames: one chunk of four, one frame left
    let chunks = b.feed(&interleaved(2, 2, 3));
    assert_eq!(chunks.len(), 1);
    assert_eq!(chunks[0], vec![vec![0, 10, 20, 30], vec![1, 11, 21, 31]]);
    assert_eq!(b.pending_frames(), 1);
    // nine frames: 1 + 9 = 10 -> two chunks, two left
    let chunks = b.feed(&interleaved(9, 2, 5));
    assert_eq!(chunks.len(), 2);
    assert_eq!(chunks[0][0], vec![40, 50, 60, 70]);
    assert_eq!(chunks[0][1], vec![41, 51, 61, 71]);
    assert_eq!(chunks[1][0], vec![80, 90, 100, 110]);
    assert_eq!(chunks[1][1], vec![81, 91, 101, 111]);
    assert_eq!(b.pending_frames(), 2);
}

#[test]
fn feed_mono_block_exactly_one_chunk() {
    let mut b: ChannelBuffer<i16> = ChannelBuffer::new(1, 3);
    let chunks = b.feed(&[7, 8, 9]);
    assert_eq!(chunks, vec![vec![vec![7, 8, 9]]]);
    assert_eq!(b.pending_frames(), 0);
}

#[test]
fn feed_empty_block_changes_nothing() {
    let mut b: ChannelBuffer<i16> = ChannelBuffer::new(2, 3);
    b.feed(&[1, 2]);
    let chunks = b.feed(&[]);
    assert!(chunks.is_empty());
    assert_eq!(b.pending_frames(), 1);
}

#[test]
fn chunk_exactness_over_unaligned_blocks() {
    let chunk = 7usize;
    let mut b: ChannelBuffer<i32> = ChannelBuffer::new(3, chunk);
    let sizes = [1usize, 5, 13, 2, 0, 29, 6, 8];
    let mut pushed = 0usize;
    let mut drained = 0usize;
    let mut seen: Vec<i32> = Vec::new();
    for s in sizes {
        let block = interleaved(s, 3, pushed as i32);
        pushed += s;
        for c in b.feed(&block) {
            assert_eq!(c.len(), 3);
            for ch in &c {
                assert_eq!(ch.len(), chunk);
            }
            drained += chunk;
            seen.extend(c[0].iter().copied());
        }
        assert_eq!(b.pending_frames(), pushed % chunk);
    }
    assert_eq!(drained, pushed - pushed % chunk);
    let expected: Vec<i32> = (0..drained as i32).map(|f| f * 10).collect();
    assert_eq!(seen, expected);
}

#[test]
fn stereo_44100_two_seconds_gives_16k_mono_wav() {
    let input_rate = 44100usize;
    let channels = 2usize;
    let mut resampler = FftFixedInOut::<f32>::new(input_rate, 16000, 1024, channels).unwrap();
    let chunk = resampler.input_frames_next();
    let mut buffer: ChannelBuffer<f32> = ChannelBuffer::new(channels, chunk);
    let spec = hound::WavSpec {
        channels: OUTPUT_CHANNELS,
        sample_rate: OUTPUT_SAMPLE_RATE,
        bits_per_sample: OUTPUT_BITS_PER_SAMPLE,
        sample_format: hound::SampleFormat::Int,
    };
    let mut bytes = Cursor::new(Vec::new());
    let mut gate = SinkGate::new();
    {
        let mut writer = hound::WavWriter::new(&mut bytes, spec).unwrap();
        let total_frames = input_rate * 2;
        let mut sent = 0usize;
        while sent < total_frames {
            let frames = (total_frames - sent).min(441);
            let mut block = Vec::with_capacity(frames * channels);
            for f in 0..frames {
                let t = (sent + f) as f32 / input_rate as f32;
                let v = (t * 440.0 * std::f32::consts::TAU).sin() * 0.5;
                block.push(v);
                block.push(-v);
            }
            sent += frames;
            for c in buffer.feed(&block) {
                let out = resampler.process(&c, None).unwrap();
                assert!(gate.accept(out[0].len() as u64));
                for i in 0..out[0].len() {
                    let mixed = (out[0][i] + out[1][i]) / 2.0;
                    let s = (mixed.clamp(-1.0, 1.0) * 32767.0) as i16;
                    writer.write_sample(s).unwrap();
                }
            }
        }
        assert!(gate.finalize());
        writer.finalize().unwrap();
    }
    assert!(!gate.accept(1));
    let reader = hound::WavReader::new(Cursor::new(bytes.into_inner())).unwrap();
    let got = reader.spec();
    assert_eq!(got.sample_rate, 16000);
    assert_eq!(got.channels, 1);
    assert_eq!(got.bits_per_sample, 16);
    let samples = reader.len() as i64;
    assert_eq!(samples as u64, gate.written());
    let tolerance = resampler.output_frames_next() as i64;
    assert!((samples - 32000).abs() <= tolerance, "{} samples", samples);
}
