use handy::wav::{pcm16_le_bytes, wav_from_pcm16};

#[test]
fn pcm_bytes_are_little_endian() {
    assert_eq!(pcm16_le_bytes(&[0, 1, -1, 32767, -32768, 0x1234]), vec![
        0, 0, 1, 0, 0xff, 0xff, 0xff, 0x7f, 0x00, 0x80, 0x34, 0x12
    ]);
    assert_eq!(pcm16_le_bytes(&[]), Vec::<u8>::new());
}

#[test]
fn wav_header_for_two_samples() {
    let wav = wav_from_pcm16(&[1, -2], 16_000);
    let mut expected: Vec<u8> = Vec::new();
    expected.extend_from_slice(b"RIFF");
    expected.extend_from_slice(&40u32.to_le_bytes());
    expected.extend_from_slice(b"WAVE");
    expected.extend_from_slice(b"fmt ");
    expected.extend_from_slice(&16u32.to_le_bytes());
    expected.extend_from_slice(&1u16.to_le_bytes());
    expected.extend_from_slice(&1u16.to_le_bytes());
    expected.extend_from_slice(&16_000u32.to_le_bytes());
    expected.extend_from_slice(&32_000u32.to_le_bytes());
    expected.extend_from_slice(&2u16.to_le_bytes());
    expected.extend_from_slice(&16u16.to_le_bytes());
    expected.extend_from_slice(b"data");
    expected.extend_from_slice(&4u32.to_le_bytes());
    expected.extend_from_slice(&[1, 0, 0xfe, 0xff]);
    assert_eq!(wav, expected);
    assert_eq!(wav.len(), 44 + 4);
}

#[test]
fn empty_wav_is_header_only() {
    let wav = wav_from_pcm16(&[], 44_100);
    assert_eq!(wav.len(), 44);
    assert_eq!(&wav[4..8], &36u32.to_le_bytes());
    assert_eq!(&wav[24..28], &44_100u32.to_le_bytes());
    assert_eq!(&wav[28..32], &88_200u32.to_le_bytes());
    assert_eq!(&wav[40..44], &0u32.to_le_bytes());
}

#[test]
fn wav_samples_read_back() {
    let samples: Vec<i16> = (-300..300).map(|x: i32| (x * 97) as i16).collect();
    let wav = wav_from_pcm16(&samples, 16_000);
    let back: Vec<i16> = wav[44..].chunks(2).map(|c| i16::from_le_bytes([c[0], c[1]])).collect();
    assert_eq!(back, samples);
}
