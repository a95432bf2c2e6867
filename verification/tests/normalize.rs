use avif_pixels::normalize::{normalize, CanonicalPixelBuffer};
use avif_pixels::pixel::{premultiply_pixel, scale_channel, truncate_sample, Rgba8, OPAQUE};
use avif_pixels::source::{DecodeError, DecodedImage, Samples};

fn rgba(r: u8, g: u8, b: u8, a: u8) -> Rgba8 {
    Rgba8 { r, g, b, a }
}

fn one_pixel(samples: Samples) -> Rgba8 {
    let image = DecodedImage::new(1, 1, samples).expect("one pixel");
    let out: CanonicalPixelBuffer = normalize(&image, false);
    assert_eq!((out.width, out.height, out.pixels.len()), (1, 1, 1));
    out.pixels[0]
}

#[test]
fn rgb8_is_copied_and_made_opaque() {
    assert_eq!(one_pixel(Samples::Rgb8(vec![10, 20, 30])), rgba(10, 20, 30, 255));
}

#[test]
fn rgba8_is_copied_with_its_alpha() {
    assert_eq!(one_pixel(Samples::Rgba8(vec![10, 20, 30, 40])), rgba(10, 20, 30, 40));
}

#[test]
fn rgb16_keeps_high_bytes_and_is_made_opaque() {
    assert_eq!(
        one_pixel(Samples::Rgb16(vec![0x1234, 0xABCD, 0x00FF])),
        rgba(0x12, 0xAB, 0x00, 255)
    );
}

#[test]
fn rgba16_keeps_high_bytes_of_colour_and_alpha() {
    assert_eq!(
        one_pixel(Samples::Rgba16(vec![0x1234, 0xABCD, 0xFFFF, 0x80FF])),
        rgba(0x12, 0xAB, 0xFF, 0x80)
    );
}

#[test]
fn gray8_is_replicated_and_made_opaque() {
    assert_eq!(one_pixel(Samples::Gray8(vec![200])), rgba(200, 200, 200, 255));
}

#[test]
fn gray16_keeps_high_byte_replicated() {
    assert_eq!(one_pixel(Samples::Gray16(vec![0xC8FF])), rgba(0xC8, 0xC8, 0xC8, 255));
}

#[test]
fn gray_alpha8_is_replicated_with_its_alpha() {
    assert_eq!(one_pixel(Samples::GrayAlpha8(vec![90, 7])), rgba(90, 90, 90, 7));
}

#[test]
fn gray_alpha16_keeps_high_bytes_of_gray_and_alpha() {
    assert_eq!(
        one_pixel(Samples::GrayAlpha16(vec![0x64C8, 0x3200])),
        rgba(0x64, 0x64, 0x64, 0x32)
    );
}

#[test]
fn truncation_keeps_the_high_byte_at_the_boundaries() {
    assert_eq!(truncate_sample(0x0000), 0x00);
    assert_eq!(truncate_sample(0x00FF), 0x00);
    assert_eq!(truncate_sample(0x0100), 0x01);
    assert_eq!(truncate_sample(0x01FF), 0x01);
    assert_eq!(truncate_sample(0x7FFF), 0x7F);
    assert_eq!(truncate_sample(0x8000), 0x80);
    assert_eq!(truncate_sample(0xFFFF), 0xFF);
}

#[test]
fn truncation_is_a_shift_for_every_sample() {
    for v in 0..=u16::MAX {
        assert_eq!(truncate_sample(v), (v >> 8) as u8);
    }
}

#[test]
fn truncation_never_rounds_up() {
    assert_eq!(one_pixel(Samples::Gray16(vec![0x00FF])), rgba(0, 0, 0, 255));
    assert_eq!(one_pixel(Samples::Gray16(vec![0x0100])), rgba(1, 1, 1, 255));
    assert_eq!(one_pixel(Samples::Gray16(vec![0xFFFF])), rgba(255, 255, 255, 255));
}

#[test]
fn opaque_is_255() {
    assert_eq!(OPAQUE, 255);
}

#[test]
fn scaled_channel_is_product_over_255_rounded_down() {
    assert_eq!(scale_channel(200, 128), 100);
    assert_eq!(scale_channel(255, 255), 255);
    assert_eq!(scale_channel(255, 254), 254);
    assert_eq!(scale_channel(254, 254), 253);
    assert_eq!(scale_channel(1, 254), 0);
    assert_eq!(scale_channel(1, 255), 1);
    assert_eq!(scale_channel(128, 128), 64);
    assert_eq!(scale_channel(3, 85), 1);
    assert_eq!(scale_channel(3, 84), 0);
}

#[test]
fn scaled_channel_matches_the_formula_everywhere() {
    for c in 0..=255u16 {
        for a in 0..=255u16 {
            assert_eq!(u16::from(scale_channel(c as u8, a as u8)), c * a / 255);
        }
    }
}

#[test]
fn premultiplying_an_opaque_pixel_changes_nothing() {
    for c in 0..=255u8 {
        let p = rgba(c, 255 - c, c / 2, 255);
        assert_eq!(premultiply_pixel(p), p);
        assert_eq!(premultiply_pixel(premultiply_pixel(p)), p);
    }
}

#[test]
fn premultiplying_a_transparent_pixel_zeroes_its_colour() {
    assert_eq!(premultiply_pixel(rgba(255, 128, 1, 0)), rgba(0, 0, 0, 0));
    assert_eq!(premultiply_pixel(rgba(0, 0, 0, 0)), rgba(0, 0, 0, 0));
}

#[test]
fn premultiplying_keeps_alpha_and_scales_each_channel() {
    assert_eq!(premultiply_pixel(rgba(200, 100, 50, 128)), rgba(100, 50, 25, 128));
    assert_eq!(premultiply_pixel(rgba(255, 255, 255, 1)), rgba(1, 1, 1, 1));
}

#[test]
fn normalize_premultiplies_after_deriving_alpha() {
    let image = DecodedImage::new(
        2,
        1,
        Samples::Rgba16(vec![0xC8FF, 0x64FF, 0x32FF, 0x80FF, 0xFFFF, 0xFFFF, 0xFFFF, 0x0000]),
    )
    .unwrap();
    let plain = normalize(&image, false);
    assert_eq!(plain.pixels, vec![rgba(200, 100, 50, 128), rgba(255, 255, 255, 0)]);
    let scaled = normalize(&image, true);
    assert_eq!(scaled.pixels, vec![rgba(100, 50, 25, 128), rgba(0, 0, 0, 0)]);
    assert_eq!((scaled.width, scaled.height), (2, 1));
}

#[test]
fn normalize_premultiplied_leaves_sources_without_alpha_unchanged() {
    let image = DecodedImage::new(3, 1, Samples::Gray8(vec![0, 77, 255])).unwrap();
    assert_eq!(normalize(&image, true).pixels, normalize(&image, false).pixels);
    let image = DecodedImage::new(1, 2, Samples::Rgb16(vec![1, 2, 3, 0x0400, 0x0500, 0x0600]))
        .unwrap();
    assert_eq!(normalize(&image, true).pixels, vec![rgba(0, 0, 0, 255), rgba(4, 5, 6, 255)]);
}

#[test]
fn normalize_keeps_pixels_in_source_order() {
    let image = DecodedImage::new(2, 2, Samples::GrayAlpha8(vec![1, 2, 3, 4, 5, 6, 7, 8])).unwrap();
    let out = normalize(&image, false);
    assert_eq!(
        out.pixels,
        vec![rgba(1, 1, 1, 2), rgba(3, 3, 3, 4), rgba(5, 5, 5, 6), rgba(7, 7, 7, 8)]
    );
    let image = DecodedImage::new(2, 1, Samples::Rgb8(vec![1, 2, 3, 4, 5, 6])).unwrap();
    assert_eq!(normalize(&image, false).pixels, vec![rgba(1, 2, 3, 255), rgba(4, 5, 6, 255)]);
}

fn length_holds(width: usize, height: usize) {
    let n = width * height;
    let sources = vec![
        Samples::Rgb8(vec![9; n * 3]),
        Samples::Rgba8(vec![9; n * 4]),
        Samples::Rgb16(vec![0x0900; n * 3]),
        Samples::Rgba16(vec![0x0900; n * 4]),
        Samples::Gray8(vec![9; n]),
        Samples::Gray16(vec![0x0900; n]),
        Samples::GrayAlpha8(vec![9; n * 2]),
        Samples::GrayAlpha16(vec![0x0900; n * 2]),
    ];
    for samples in sources {
        let image = DecodedImage::new(width, height, samples).unwrap();
        for premultiply in [false, true] {
            let out = normalize(&image, premultiply);
            assert_eq!(out.width, width);
            assert_eq!(out.height, height);
            assert_eq!(out.pixels.len(), width * height);
        }
    }
}

#[test]
fn output_length_is_width_times_height_1x1() {
    length_holds(1, 1);
}

#[test]
fn output_length_is_width_times_height_16x16() {
    length_holds(16, 16);
}

#[test]
fn output_length_is_width_times_height_1x1000() {
    length_holds(1, 1000);
}

#[test]
fn output_length_is_width_times_height_1000x1() {
    length_holds(1000, 1);
}

#[test]
fn output_length_is_zero_for_an_image_without_pixels() {
    length_holds(0, 0);
    length_holds(0, 5);
    length_holds(5, 0);
}

#[test]
fn new_accepts_exactly_width_times_height_pixels() {
    let image = DecodedImage::new(2, 3, Samples::Rgb8(vec![0; 18])).unwrap();
    assert_eq!((image.width, image.height), (2, 3));
    assert!(image.is_well_formed());
    assert_eq!(image.samples.len(), 18);
    assert_eq!(image.samples.channel_count(), 3);
}

#[test]
fn new_rejects_a_buffer_of_another_size() {
    assert_eq!(
        DecodedImage::new(2, 3, Samples::Rgb8(vec![0; 17])).unwrap_err(),
        DecodeError::SampleCount
    );
    assert_eq!(
        DecodedImage::new(2, 3, Samples::Rgb8(vec![0; 19])).unwrap_err(),
        DecodeError::SampleCount
    );
    assert_eq!(
        DecodedImage::new(2, 3, Samples::Rgba8(vec![0; 18])).unwrap_err(),
        DecodeError::SampleCount
    );
    assert_eq!(
        DecodedImage::new(1, 1, Samples::GrayAlpha16(vec![0; 1])).unwrap_err(),
        DecodeError::SampleCount
    );
    assert_eq!(
        DecodedImage::new(1, 1, Samples::Gray8(vec![])).unwrap_err(),
        DecodeError::SampleCount
    );
}

#[test]
fn new_rejects_dimensions_whose_product_overflows() {
    assert_eq!(
        DecodedImage::new(usize::MAX, 2, Samples::Gray8(vec![0; 4])).unwrap_err(),
        DecodeError::SampleCount
    );
    assert_eq!(
        DecodedImage::new(usize::MAX, 1, Samples::Rgb8(vec![0; 3])).unwrap_err(),
        DecodeError::SampleCount
    );
}

#[test]
fn is_well_formed_tells_a_hand_made_image() {
    let good = DecodedImage { width: 2, height: 2, samples: Samples::Gray16(vec![0; 4]) };
    assert!(good.is_well_formed());
    let short = DecodedImage { width: 2, height: 2, samples: Samples::Gray16(vec![0; 3]) };
    assert!(!short.is_well_formed());
    let huge = DecodedImage { width: usize::MAX, height: usize::MAX, samples: Samples::Gray8(vec![]) };
    assert!(!huge.is_well_formed());
}

#[test]
fn channel_counts_follow_the_encoding() {
    assert_eq!(Samples::Rgb8(vec![]).channel_count(), 3);
    assert_eq!(Samples::Rgba8(vec![]).channel_count(), 4);
    assert_eq!(Samples::Rgb16(vec![]).channel_count(), 3);
    assert_eq!(Samples::Rgba16(vec![]).channel_count(), 4);
    assert_eq!(Samples::Gray8(vec![]).channel_count(), 1);
    assert_eq!(Samples::Gray16(vec![]).channel_count(), 1);
    assert_eq!(Samples::GrayAlpha8(vec![]).channel_count(), 2);
    assert_eq!(Samples::GrayAlpha16(vec![]).channel_count(), 2);
}

#[test]
fn pixel_reads_the_samples_of_its_index() {
    let samples = Samples::Rgba8(vec![1, 2, 3, 4, 5, 6, 7, 8, 9, 10, 11, 12]);
    assert_eq!(samples.pixel(0), rgba(1, 2, 3, 4));
    assert_eq!(samples.pixel(1), rgba(5, 6, 7, 8));
    assert_eq!(samples.pixel(2), rgba(9, 10, 11, 12));
}

#[test]
fn premultiply_in_place_scales_every_pixel_and_keeps_the_rest() {
    let mut buffer = CanonicalPixelBuffer {
        width: 3,
        height: 1,
        pixels: vec![rgba(200, 100, 50, 128), rgba(9, 9, 9, 0), rgba(7, 8, 9, 255)],
    };
    buffer.premultiply();
    assert_eq!(buffer.pixels, vec![rgba(100, 50, 25, 128), rgba(0, 0, 0, 0), rgba(7, 8, 9, 255)]);
    assert_eq!((buffer.width, buffer.height), (3, 1));
    buffer.premultiply();
    assert_eq!(buffer.pixels, vec![rgba(50, 25, 12, 128), rgba(0, 0, 0, 0), rgba(7, 8, 9, 255)]);
}

#[test]
fn premultiply_in_place_accepts_an_empty_buffer() {
    let mut buffer = CanonicalPixelBuffer { width: 0, height: 0, pixels: vec![] };
    buffer.premultiply();
    assert!(buffer.pixels.is_empty());
}
