use minami::frame::Frame;

#[test]
fn frame_takes_a_buffer_of_the_exact_length() {
    let frame = Frame::new(3, 2, vec![7u8; 24]).expect("3 x 2 x 4 = 24");
    assert_eq!(frame.width(), 3);
    assert_eq!(frame.height(), 2);
    assert_eq!(frame.buffer(), &vec![7u8; 24]);
    assert_eq!(frame.buffer().len(), 3 * 2 * 4);
    assert_eq!(frame.into_buffer(), vec![7u8; 24]);
}

#[test]
fn frame_refuses_a_short_buffer() {
    assert_eq!(Frame::new(3, 2, vec![0u8; 23]), None);
    assert_eq!(Frame::new(3, 2, vec![]), None);
    assert_eq!(Frame::new(1, 1, vec![0u8; 3]), None);
}

#[test]
fn frame_refuses_a_long_buffer() {
    assert_eq!(Frame::new(3, 2, vec![0u8; 25]), None);
    assert_eq!(Frame::new(0, 0, vec![0u8; 1]), None);
    assert_eq!(Frame::new(0, 5, vec![0u8; 20]), None);
}

#[test]
fn frame_without_pixels_has_an_empty_buffer() {
    for (width, height) in [(0, 0), (0, 9), (9, 0), (u32::MAX, 0), (0, u32::MAX)] {
        let frame = Frame::new(width, height, vec![]).expect("no pixels, no bytes");
        assert_eq!(frame.width(), width);
        assert_eq!(frame.height(), height);
        assert!(frame.buffer().is_empty());
    }
}

#[test]
fn frame_of_unrepresentable_size_is_refused() {
    assert_eq!(Frame::new(u32::MAX, u32::MAX, vec![0u8; 16]), None);
    assert_eq!(Frame::new(u32::MAX, u32::MAX, vec![]), None);
    assert_eq!(Frame::new(1 << 31, 1 << 31, vec![]), None);
    assert_eq!(Frame::new(1 << 16, 1 << 16, vec![]), None);
}

#[test]
fn frame_invariant_holds_for_every_declared_size() {
    for width in 0u32..12 {
        for height in 0u32..12 {
            let wanted = (width * height * 4) as usize;
            for len in [0, 1, wanted.saturating_sub(1), wanted, wanted + 1, wanted + 4] {
                match Frame::new(width, height, vec![0u8; len]) {
                    Some(frame) => {
                        assert_eq!(len, wanted);
                        assert_eq!(
                            frame.buffer().len(),
                            frame.width() as usize * frame.height() as usize * 4
                        );
                    }
                    None => assert_ne!(len, wanted),
                }
            }
        }
    }
}

#[test]
fn frame_clone_is_the_same_frame() {
    let frame = Frame::new(2, 2, (0u8..16).collect()).unwrap();
    let copy = frame.clone();
    assert_eq!(copy, frame);
    assert_eq!(copy.buffer(), frame.buffer());
}
