use mirage::color::{brighten, grayscale, invert};
use mirage::fractal::{fractal, gradient_level, FRACTAL_PIXELS};
use mirage::geometry::{crop, rotate, Rotation};
use mirage::raster::{GrayImage, Image};

fn image(width: u32, height: u32, samples: Vec<u8>) -> Image {
    Image::new(width, height, samples).expect("samples match the size")
}

/// 2x2 image [[a, b], [c, d]] with a distinct colour in each pixel.
fn square() -> Image {
    image(2, 2, vec![1, 2, 3, 4, 5, 6, 7, 8, 9, 10, 11, 12])
}

#[test]
fn image_new_checks_sample_count() {
    assert!(Image::new(2, 2, vec![0; 11]).is_none());
    assert!(Image::new(2, 2, vec![0; 13]).is_none());
    assert!(Image::new(0, 5, vec![]).is_some());
    let img = square();
    assert_eq!((img.width(), img.height()), (2, 2));
    assert_eq!(img.pixel(1, 1), (10, 11, 12));
    assert_eq!(img.pixel(0, 1), (7, 8, 9));
    assert!(GrayImage::new(3, 1, vec![1, 2]).is_none());
    assert!(GrayImage::new(3, 1, vec![1, 2, 3]).is_some());
}

#[test]
fn rotation_accepts_only_quarter_turns() {
    assert_eq!(Rotation::from_degrees(90), Some(Rotation::Quarter));
    assert_eq!(Rotation::from_degrees(180), Some(Rotation::Half));
    assert_eq!(Rotation::from_degrees(270), Some(Rotation::ThreeQuarters));
    for d in [0u32, 1, 45, 89, 91, 179, 181, 269, 271, 360, 450, u32::MAX] {
        assert_eq!(Rotation::from_degrees(d), None);
    }
}

#[test]
fn rotate_quarter_turn_moves_pixels_clockwise() {
    let r = rotate(&square(), Rotation::Quarter);
    assert_eq!((r.width(), r.height()), (2, 2));
    assert_eq!(r.samples(), &vec![7, 8, 9, 1, 2, 3, 10, 11, 12, 4, 5, 6]);
}

#[test]
fn rotate_half_turn_reverses_pixels() {
    let r = rotate(&square(), Rotation::Half);
    assert_eq!(r.samples(), &vec![10, 11, 12, 7, 8, 9, 4, 5, 6, 1, 2, 3]);
}

#[test]
fn rotate_three_quarters_moves_pixels_counterclockwise() {
    let r = rotate(&square(), Rotation::ThreeQuarters);
    assert_eq!(r.samples(), &vec![4, 5, 6, 10, 11, 12, 1, 2, 3, 7, 8, 9]);
}

#[test]
fn rotate_swaps_dimensions_of_wide_image() {
    let img = image(3, 2, (0..18).collect());
    for (rot, dims) in [
        (Rotation::Quarter, (2, 3)),
        (Rotation::Half, (3, 2)),
        (Rotation::ThreeQuarters, (2, 3)),
    ] {
        let r = rotate(&img, rot);
        assert_eq!((r.width(), r.height()), dims);
        assert_eq!(r.samples().len(), 18);
    }
    let r = rotate(&img, Rotation::Quarter);
    // top-left of a clockwise turn is the bottom-left of the input
    assert_eq!(r.pixel(0, 0), img.pixel(0, 1));
    assert_eq!(r.pixel(1, 0), img.pixel(0, 0));
}

#[test]
fn invert_exact_values() {
    let img = image(1, 1, vec![0, 100, 255]);
    assert_eq!(invert(&img).samples(), &vec![255, 155, 0]);
}

#[test]
fn invert_twice_is_identity() {
    let img = image(3, 2, vec![0, 1, 2, 50, 127, 128, 200, 254, 255, 9, 99, 199, 3, 30, 33, 77, 88, 66]);
    let back = invert(&invert(&img));
    assert_eq!(back.samples(), img.samples());
    assert_eq!((back.width(), back.height()), (3, 2));
}

#[test]
fn brighten_zero_is_identity() {
    let img = image(2, 1, vec![0, 17, 128, 200, 254, 255]);
    let r = brighten(&img, 0);
    assert_eq!(r.samples(), img.samples());
}

#[test]
fn brighten_adds_and_saturates() {
    let img = image(2, 1, vec![0, 17, 128, 200, 254, 255]);
    assert_eq!(brighten(&img, 50).samples(), &vec![50, 67, 178, 250, 255, 255]);
    assert_eq!(brighten(&img, -20).samples(), &vec![0, 0, 108, 180, 234, 235]);
    assert_eq!(brighten(&img, i32::MAX).samples(), &vec![255; 6]);
    assert_eq!(brighten(&img, i32::MIN).samples(), &vec![0; 6]);
}

#[test]
fn brighten_white_by_minus_255_gives_black() {
    let img = image(3, 3, vec![255; 27]);
    let r = brighten(&img, -255);
    assert_eq!((r.width(), r.height()), (3, 3));
    assert_eq!(r.samples(), &vec![0; 27]);
}

#[test]
fn grayscale_exact_luma() {
    let img = image(4, 1, vec![255, 0, 0, 0, 255, 0, 0, 0, 255, 255, 255, 255]);
    let g = grayscale(&img);
    // (2126 r + 7152 g + 722 b) / 10000
    assert_eq!(g.samples(), &vec![54, 182, 18, 255]);
}

#[test]
fn grayscale_two_by_two_collapses_channels() {
    let img = image(2, 2, vec![200, 10, 30, 5, 150, 90, 60, 70, 250, 123, 45, 67]);
    let g = grayscale(&img);
    assert_eq!((g.width(), g.height()), (2, 2));
    let rgb = g.to_rgb().expect("fits");
    assert_eq!((rgb.width(), rgb.height()), (2, 2));
    for y in 0..2 {
        for x in 0..2 {
            let (r, gr, b) = rgb.pixel(x, y);
            assert_eq!(r, gr);
            assert_eq!(gr, b);
        }
    }
    assert_ne!(rgb.pixel(0, 0), rgb.pixel(1, 0));
}

#[test]
fn crop_keeps_requested_rectangle() {
    let img = image(3, 2, (0..18).collect());
    let r = crop(&img, 1, 0, 2, 1);
    assert_eq!((r.width(), r.height()), (2, 1));
    assert_eq!(r.samples(), &vec![3, 4, 5, 6, 7, 8]);
}

#[test]
fn crop_is_cut_at_the_edges() {
    let img = image(3, 2, (0..18).collect());
    let r = crop(&img, 1, 1, 100, 100);
    assert_eq!((r.width(), r.height()), (2, 1));
    assert_eq!(r.samples(), &vec![12, 13, 14, 15, 16, 17]);
    let outside = crop(&img, 10, 10, 2, 2);
    assert_eq!((outside.width(), outside.height()), (0, 0));
    assert!(outside.samples().is_empty());
}

#[test]
fn fractal_is_800_square_with_dark_corner() {
    let escape: Vec<u8> = (0..FRACTAL_PIXELS).map(|p| (p % 256) as u8).collect();
    let img = fractal(&escape).expect("one count per pixel");
    assert_eq!((img.width(), img.height()), (800, 800));
    let (r, g, b) = img.pixel(0, 0);
    assert_eq!((r, b), (0, 0));
    assert_eq!(g, 0);
    assert_eq!(img.pixel(799, 0), (239, (799 % 256) as u8, 0));
    assert_eq!(img.pixel(10, 20), (3, ((20 * 800 + 10) % 256) as u8, 6));
    assert_eq!(img.pixel(799, 799), (239, ((799 * 800 + 799) % 256) as u8, 239));
}

#[test]
fn fractal_needs_one_count_per_pixel() {
    assert!(fractal(&vec![0; FRACTAL_PIXELS - 1]).is_none());
    assert!(fractal(&vec![]).is_none());
}

#[test]
fn gradient_is_three_tenths() {
    assert_eq!(gradient_level(0), 0);
    assert_eq!(gradient_level(9), 2);
    assert_eq!(gradient_level(10), 3);
    assert_eq!(gradient_level(799), 239);
}
