use vis_core::samples::SampleBuffer;

type Sample = f32;

fn ramp(from: usize, to: usize) -> Vec<[Sample; 2]> {
    (from..to).map(|i| [i as Sample, i as Sample]).collect::<Vec<_>>()
}

#[test]
fn test_simple() {
    let mut buf = SampleBuffer::new(16, 8000, [0.0; 2]);

    buf.push(&[[1.0; 2]; 8]);

    for s in buf.iter(16, 1) {
        println!("{:?}", s);
    }
}

#[test]
fn test_overflow() {
    let mut buf = SampleBuffer::new(16, 8000, [0.0; 2]);

    buf.push(&ramp(100, 120));

    buf.push(&ramp(0, 32));

    assert_eq!(buf.iter(16, 1), ramp(16, 32));
}

#[test]
fn test_downsample() {
    let mut buf = SampleBuffer::new(32, 8000, [0.0; 2]);

    buf.push(&ramp(0, 32));

    assert_eq!(
        &buf.iter(7, 4),
        &[[4.0; 2], [8.0; 2], [12.0; 2], [16.0; 2], [20.0; 2], [24.0; 2], [28.0; 2],]
    );
}

#[test]
fn new_buffer_is_silent_and_keeps_rate() {
    let buf = SampleBuffer::new(5, 44100, [0.0f32; 2]);
    assert_eq!(buf.len(), 5);
    assert_eq!(buf.rate(), 44100);
    assert_eq!(buf.iter(5, 1), vec![[0.0f32; 2]; 5]);
}

#[test]
fn length_stays_fixed_over_pushes() {
    let mut buf = SampleBuffer::new(10, 8000, 0u32);
    for chunk in [0usize, 1, 3, 10, 25, 7] {
        let data: Vec<u32> = (0..chunk as u32).collect();
        buf.push(&data);
        assert_eq!(buf.len(), 10);
    }
    // The newest ten samples are the last 3 of the 25-chunk and the 7-chunk.
    assert_eq!(buf.iter(10, 1), vec![22, 23, 24, 0, 1, 2, 3, 4, 5, 6]);
}

#[test]
fn push_of_nothing_changes_nothing() {
    let mut buf = SampleBuffer::new(4, 8000, 0i32);
    buf.push(&[1, 2, 3, 4]);
    buf.push(&[]);
    assert_eq!(buf.iter(4, 1), vec![1, 2, 3, 4]);
}

#[test]
fn empty_buffer_accepts_empty_push() {
    let mut buf = SampleBuffer::new(0, 8000, 0i32);
    buf.push(&[]);
    assert_eq!(buf.len(), 0);
    assert_eq!(buf.iter(0, 1), Vec::<i32>::new());
}

#[test]
fn strided_read_spans_whole_buffer() {
    let mut buf = SampleBuffer::new(12, 8000, 0i32);
    buf.push(&(0..12).collect::<Vec<i32>>());
    assert_eq!(buf.iter(4, 3), vec![0, 3, 6, 9]);
    assert_eq!(buf.iter(3, 2), vec![6, 8, 10]);
    assert_eq!(buf.iter(0, 5), Vec::<i32>::new());
}

#[test]
fn zero_stride_reads_nothing() {
    let mut buf = SampleBuffer::new(8, 8000, 0i32);
    buf.push(&[1, 2, 3]);
    assert_eq!(buf.iter(5, 0), Vec::<i32>::new());
}

#[test]
fn volume_window_takes_latest_samples() {
    let mut buf = SampleBuffer::new(16, 40, 0i32);
    buf.push(&(0..16).collect::<Vec<i32>>());
    // 40 samples a second over a tenth of a second: the last 4 samples.
    assert_eq!(buf.volume_window(10), vec![12, 13, 14, 15]);
    // Over 1/3 s: 40 / 3 = 13 samples.
    assert_eq!(buf.volume_window(3).len(), 13);
    assert_eq!(buf.volume_window(3)[0], 3);
}
