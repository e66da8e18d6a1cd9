use emblize_py::decode::{PyOut, ToPyError};
use emblize_py::frame::{fill_writable, StreamDecoder};
use emblize_py::tag::TokenTag;
use emblize_py::token::{Scalar, Token};

#[test]
fn fill_splits_across_both_regions() {
    let bytes: Vec<u8> = (1..=10).collect();
    let mut first = vec![0u8; 4];
    let mut second = vec![0u8; 3];
    let (n, m) = fill_writable(&bytes, &mut first, &mut second);
    assert_eq!((n, m), (4, 3));
    assert_eq!(first, vec![1, 2, 3, 4]);
    assert_eq!(second, vec![5, 6, 7]);
}

#[test]
fn fill_short_input_leaves_the_rest() {
    let bytes = [9u8, 8];
    let mut first = vec![7u8; 4];
    let mut second = vec![6u8; 3];
    assert_eq!(fill_writable(&bytes, &mut first, &mut second), (2, 0));
    assert_eq!(first, vec![9, 8, 7, 7]);
    assert_eq!(second, vec![6, 6, 6]);
}

#[test]
fn fill_partial_second_region() {
    let bytes = [1u8, 2, 3, 4, 5];
    let mut first = vec![0u8; 3];
    let mut second = vec![0u8; 4];
    assert_eq!(fill_writable(&bytes, &mut first, &mut second), (3, 2));
    assert_eq!(second, vec![4, 5, 0, 0]);
}

#[test]
fn fill_with_no_room() {
    let bytes = [1u8, 2];
    let mut first: Vec<u8> = vec![];
    let mut second: Vec<u8> = vec![];
    assert_eq!(fill_writable(&bytes, &mut first, &mut second), (0, 0));
}

#[test]
fn new_decoder_halves_capacity() {
    let d = StreamDecoder::new(11, &[0xAA, 0x55]);
    assert_eq!(d.capacity(), 11);
    assert_eq!(d.out_buf_size(), 5);
    assert_eq!(d.sync(), &[0xAA, 0x55]);
}

#[test]
fn push_fills_and_gives_zeroed_frame_buffer() {
    let d = StreamDecoder::new(8, &[0x7E]);
    let mut first = vec![0u8; 2];
    let mut second = vec![0u8; 6];
    let (n, m, out) = d.push(&[1, 2, 3], &mut first, &mut second);
    assert_eq!((n, m), (2, 1));
    assert_eq!(out, vec![0u8; 4]);
    assert_eq!(second[0], 3);
}

#[test]
fn take_frame_appends_or_keeps() {
    let d = StreamDecoder::new(8, &[0x7E]);
    let mut frames = Vec::new();
    d.take_frame(&mut frames, &Token::Scalar(None, Scalar::U8(1))).unwrap();
    d.take_frame(&mut frames, &Token::Bool(None, true)).unwrap();
    assert_eq!(frames, vec![PyOut::Wrapper(Scalar::U8(1)), PyOut::Bool(true)]);
    let bad = Token::Array(None, TokenTag::EmptyArr, vec![]);
    assert_eq!(d.take_frame(&mut frames, &bad), Err(ToPyError::InvalidDtype));
    assert_eq!(frames.len(), 2);
}
