use idx_array::IdxArray;

fn rank3_ubyte(axes: [u32; 3], data: &[u8]) -> Vec<u8> {
    let mut buf = vec![0u8, 0, 0x08, 0x03];
    for a in axes {
        buf.extend_from_slice(&a.to_be_bytes());
    }
    buf.extend_from_slice(data);
    buf
}

#[test]
fn rank3_slices_into_gray_images() {
    let buf = rank3_ubyte([2, 2, 2], &[0, 1, 2, 3, 4, 5, 6, 7]);
    let arr = IdxArray::<u8, 3>::parse(&buf).expect("valid rank-3 unsigned-byte input");
    let frames = arr.as_gray_image_sequence();
    assert_eq!(frames.len(), 2);
    for frame in &frames {
        assert_eq!(frame.dimensions(), (2, 2));
    }
    let pixels: Vec<Vec<u8>> = frames.into_iter().map(|f| f.into_raw()).collect();
    assert_eq!(pixels[0], vec![0, 1, 2, 3]);
    assert_eq!(pixels[1], vec![4, 5, 6, 7]);
}

#[test]
fn gray_frames_are_real_image_buffers() {
    // The frames must be genuine image-crate buffers with the decoded bytes
    // as their pixels, reachable through the image crate's own accessors.
    let buf = rank3_ubyte([1, 2, 3], &[10, 20, 30, 40, 50, 60]);
    let arr = IdxArray::<u8, 3>::parse(&buf).expect("valid rank-3 unsigned-byte input");
    let frames = arr.as_gray_image_sequence();
    assert_eq!(frames.len(), 1);
    let img = &frames[0].image;
    assert_eq!(img.dimensions(), (3, 2));
    assert_eq!(img.get_pixel(0, 0), &image::Luma([10u8]));
    assert_eq!(img.get_pixel(2, 0), &image::Luma([30u8]));
    assert_eq!(img.get_pixel(1, 1), &image::Luma([50u8]));
}

#[test]
fn zero_images_give_empty_sequence() {
    let buf = rank3_ubyte([0, 2, 2], &[]);
    let arr = IdxArray::<u8, 3>::parse(&buf).expect("a zero-sized leading axis is a valid shape");
    assert_eq!(arr.as_gray_image_sequence().len(), 0);
}

#[test]
fn wide_and_tall_images_keep_orientation() {
    // Axis 1 is the height, axis 2 the width.
    let buf = rank3_ubyte([2, 1, 3], &[1, 2, 3, 4, 5, 6]);
    let arr = IdxArray::<u8, 3>::parse(&buf).expect("valid rank-3 unsigned-byte input");
    let frames = arr.as_gray_image_sequence();
    assert_eq!(frames.len(), 2);
    assert_eq!(frames[0].dimensions(), (3, 1));
    assert_eq!(frames[1].image.width(), 3);
    assert_eq!(frames[1].image.height(), 1);
    assert_eq!(frames[1].image.get_pixel(2, 0), &image::Luma([6u8]));
}
