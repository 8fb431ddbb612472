use voice_core::sample::{
    convert_block, convert_i16, convert_i32, convert_i8, write_input_data, InputBlock, WriterSlot,
};

#[test]
fn eight_bit_samples_spread_over_the_whole_range() {
    assert_eq!(convert_i8(i8::MIN), i16::MIN);
    assert_eq!(convert_i8(i8::MAX), i16::MAX);
    assert_eq!(convert_i8(0), 128);
    assert_eq!(convert_i8(1), 385);
    assert_eq!(convert_i8(-1), -129);
    assert_eq!(convert_i8(-127), -32511);
    assert_eq!(convert_i8(126), 32510);
}

#[test]
fn eight_bit_levels_are_evenly_spaced_and_distinct() {
    for s in i8::MIN..i8::MAX {
        assert_eq!(convert_i8(s + 1) as i32 - convert_i8(s) as i32, 257);
    }
}

#[test]
fn sixteen_bit_samples_pass_unchanged() {
    assert_eq!(convert_i16(0), 0);
    assert_eq!(convert_i16(-12345), -12345);
    assert_eq!(convert_i16(i16::MIN), i16::MIN);
    assert_eq!(convert_i16(i16::MAX), i16::MAX);
}

#[test]
fn thirty_two_bit_samples_keep_their_upper_half() {
    assert_eq!(convert_i32(0), 0);
    assert_eq!(convert_i32(65535), 0);
    assert_eq!(convert_i32(65536), 1);
    assert_eq!(convert_i32(-1), -1);
    assert_eq!(convert_i32(-65536), -1);
    assert_eq!(convert_i32(-65537), -2);
    assert_eq!(convert_i32(i32::MIN), i16::MIN);
    assert_eq!(convert_i32(i32::MAX), i16::MAX);
}

#[test]
fn block_is_converted_in_order() {
    let data: [i8; 4] = [0, 1, -1, 127];
    assert_eq!(convert_block(InputBlock::I8(&data)), vec![128, 385, -129, 32767]);
    let wide: [i32; 3] = [1 << 16, -(1 << 16), 7];
    assert_eq!(convert_block(InputBlock::I32(&wide)), vec![1, -1, 0]);
    let empty: [i16; 0] = [];
    assert_eq!(convert_block(InputBlock::I16(&empty)), Vec::<i16>::new());
}

#[test]
fn open_writer_takes_the_block_and_counts_it() {
    let data: [i16; 3] = [5, -6, 7];
    let out = write_input_data(InputBlock::I16(&data), WriterSlot::Open, 10);
    assert_eq!(out.samples, Some(vec![5, -6, 7]));
    assert_eq!(out.samples_counter, 13);
}

#[test]
fn busy_or_missing_writer_drops_the_block() {
    let data: [i16; 3] = [5, -6, 7];
    let busy = write_input_data(InputBlock::I16(&data), WriterSlot::Busy, 10);
    assert_eq!(busy.samples, None);
    assert_eq!(busy.samples_counter, 10);
    let empty = write_input_data(InputBlock::I16(&data), WriterSlot::Empty, 10);
    assert_eq!(empty.samples, None);
    assert_eq!(empty.samples_counter, 10);
}

#[test]
fn sample_counter_wraps_like_the_atomic() {
    let data: [i8; 2] = [1, 2];
    let out = write_input_data(InputBlock::I8(&data), WriterSlot::Open, u64::MAX);
    assert_eq!(out.samples_counter, 1);
}

#[test]
fn every_sample_of_an_open_block_reaches_the_writer() {
    let data: Vec<i32> = (0..4096).map(|i| i * 70000 - 1_000_000).collect();
    let out = write_input_data(InputBlock::I32(&data), WriterSlot::Open, 0);
    let samples = out.samples.unwrap();
    assert_eq!(samples.len(), data.len());
    assert_eq!(out.samples_counter, 4096);
    for (native, pcm) in data.iter().zip(samples.iter()) {
        assert_eq!(*pcm as i32, native.div_euclid(65536));
    }
}

#[test]
fn conversion_keeps_the_order_of_levels() {
    let mut last: i16 = i16::MIN;
    for s in i8::MIN..=i8::MAX {
        let pcm = convert_i8(s);
        assert!(pcm >= last);
        last = pcm;
    }
    assert!(convert_i32(-70000) <= convert_i32(-60000));
    assert!(convert_i32(i32::MAX - 1) <= convert_i32(i32::MAX));
}

fn feed(block: InputBlock, writer: &std::sync::Mutex<Option<Vec<i16>>>, counter: &mut u64) {
    let mut guard = writer.try_lock().ok();
    let slot = match guard.as_deref() {
        None => WriterSlot::Busy,
        Some(None) => WriterSlot::Empty,
        Some(Some(_)) => WriterSlot::Open,
    };
    let outcome = write_input_data(block, slot, *counter);
    if let (Some(samples), Some(Some(open))) = (outcome.samples, guard.as_deref_mut()) {
        open.extend(samples);
    }
    *counter = outcome.samples_counter;
}

#[test]
fn callback_drops_a_block_while_the_writer_is_held_elsewhere() {
    let writer: std::sync::Mutex<Option<Vec<i16>>> = std::sync::Mutex::new(Some(Vec::new()));
    let mut counter: u64 = 0;
    let first: [i8; 2] = [1, 2];
    let second: [i8; 2] = [3, 4];
    let third: [i8; 2] = [5, 6];

    feed(InputBlock::I8(&first), &writer, &mut counter);
    {
        let _teardown = writer.lock().unwrap();
        feed(InputBlock::I8(&second), &writer, &mut counter);
    }
    feed(InputBlock::I8(&third), &writer, &mut counter);

    assert_eq!(counter, 4);
    assert_eq!(writer.lock().unwrap().take(), Some(vec![385, 642, 1413, 1670]));

    feed(InputBlock::I8(&first), &writer, &mut counter);
    assert_eq!(counter, 4);
    assert_eq!(*writer.lock().unwrap(), None);
}

#[test]
fn native_extremes_reach_the_writer_as_pcm_extremes() {
    let narrow: [i8; 2] = [i8::MAX, i8::MIN];
    let out = write_input_data(InputBlock::I8(&narrow), WriterSlot::Open, 0);
    assert_eq!(out.samples, Some(vec![32767, -32768]));
    let plain: [i16; 2] = [i16::MAX, i16::MIN];
    let out = write_input_data(InputBlock::I16(&plain), WriterSlot::Open, 0);
    assert_eq!(out.samples, Some(vec![32767, -32768]));
    let wide: [i32; 2] = [i32::MAX, i32::MIN];
    let out = write_input_data(InputBlock::I32(&wide), WriterSlot::Open, 0);
    assert_eq!(out.samples, Some(vec![32767, -32768]));
}

#[test]
fn wider_samples_are_quantized_as_the_audio_backend_does() {
    let plain: [i16; 5] = [i16::MIN, -1, 0, 1, i16::MAX];
    for s in plain {
        assert_eq!(convert_i16(s), <i16 as dasp_sample::Sample>::from_sample(s));
    }
    let wide: [i32; 11] =
        [i32::MIN, i32::MIN + 1, -65537, -65536, -65535, -1, 0, 65535, 65536, i32::MAX - 1, i32::MAX];
    for s in wide {
        assert_eq!(convert_i32(s), <i16 as dasp_sample::Sample>::from_sample(s));
    }
    let mut s: i32 = i32::MIN;
    while s < i32::MAX - 1_000_003 {
        assert_eq!(convert_i32(s), <i16 as dasp_sample::Sample>::from_sample(s));
        s += 1_000_003;
    }
}
