use openzt::images::{
    decode_animation_frames, decode_palette, decode_tga, frame_to_color_image, AnimationError, DrawInstruction, Frame,
    FrameError, Line, PaletteError, Rgba, TgaError,
};

fn header(image_type: u8, width: u16, height: u16, pixel_depth: u8, descriptor: u8) -> Vec<u8> {
    let mut data = vec![0; 18];
    data[2] = image_type;
    data[12..14].copy_from_slice(&width.to_le_bytes());
    data[14..16].copy_from_slice(&height.to_le_bytes());
    data[16] = pixel_depth;
    data[17] = descriptor;
    data
}

const RED: Rgba = Rgba { r: 255, g: 0, b: 0, a: 255 };
const GREEN: Rgba = Rgba { r: 0, g: 255, b: 0, a: 255 };
const BLUE: Rgba = Rgba { r: 0, g: 0, b: 255, a: 255 };
const WHITE: Rgba = Rgba { r: 255, g: 255, b: 255, a: 255 };
const BLACK: Rgba = Rgba { r: 0, g: 0, b: 0, a: 255 };
const TRANSPARENT: Rgba = Rgba { r: 0, g: 0, b: 0, a: 0 };

#[test]
fn decodes_uncompressed_24_bit_true_color() {
    let mut data = header(2, 2, 2, 24, 0x20);
    data.extend_from_slice(&[0, 0, 255, 0, 255, 0, 255, 0, 0, 255, 255, 255]);

    let image = decode_tga(&data).unwrap();

    assert_eq!((image.width, image.height), (2, 2));
    assert_eq!(image.pixels[0], RED);
    assert_eq!(image.pixels[1], GREEN);
    assert_eq!(image.pixels[2], BLUE);
    assert_eq!(image.pixels[3], WHITE);
}

#[test]
fn decodes_uncompressed_32_bit_true_color_with_alpha() {
    let mut data = header(2, 1, 1, 32, 0x20);
    data.extend_from_slice(&[20, 30, 40, 128]);

    let image = decode_tga(&data).unwrap();

    assert_eq!(image.pixels[0], Rgba::from_rgba_unmultiplied(40, 30, 20, 128));
}

#[test]
fn flips_bottom_left_origin_to_egui_top_left() {
    let mut data = header(2, 1, 2, 24, 0);
    data.extend_from_slice(&[255, 0, 0, 0, 0, 255]);

    let image = decode_tga(&data).unwrap();

    assert_eq!(image.pixels[0], RED);
    assert_eq!(image.pixels[1], BLUE);
}

#[test]
fn rejects_unsupported_image_type() {
    let data = header(0, 1, 1, 24, 0);

    assert!(decode_tga(&data).is_err());
    assert_eq!(decode_tga(&data).err(), Some(TgaError::UnsupportedImageType));
}

#[test]
fn tga_header_errors() {
    assert_eq!(decode_tga(&[0u8; 17]).err(), Some(TgaError::TooShort));
    assert_eq!(decode_tga(&header(2, 0, 1, 24, 0)).err(), Some(TgaError::ZeroDimensions));
    let mut data = header(2, 1, 1, 24, 0);
    data.extend_from_slice(&[1, 2]);
    assert_eq!(decode_tga(&data).err(), Some(TgaError::UnexpectedEnd));
    assert_eq!(decode_tga(&header(2, 1, 1, 8, 0)).err(), Some(TgaError::UnsupportedColorDepth));
}

#[test]
fn decodes_grayscale_and_run_length_pixels() {
    let mut gray = header(3, 2, 1, 8, 0x20);
    gray.extend_from_slice(&[7, 200]);
    let image = decode_tga(&gray).unwrap();
    assert_eq!(image.pixels, vec![Rgba::from_gray(7), Rgba::from_gray(200)]);

    // One run packet of three blue pixels, then one raw packet of a red one.
    let mut rle = header(10, 4, 1, 24, 0x20);
    rle.extend_from_slice(&[0x82, 255, 0, 0, 0x00, 0, 0, 255]);
    let image = decode_tga(&rle).unwrap();
    assert_eq!(image.pixels, vec![BLUE, BLUE, BLUE, RED]);

    let mut too_long = header(10, 2, 1, 24, 0x20);
    too_long.extend_from_slice(&[0x82, 255, 0, 0]);
    assert_eq!(decode_tga(&too_long).err(), Some(TgaError::RlePacketExceedsImage));
}

fn palette_bytes(count: u32, colors: &[[u8; 4]]) -> Vec<u8> {
    let mut data = count.to_le_bytes().to_vec();
    for color in colors {
        data.extend_from_slice(color);
    }
    data
}

fn test_frame() -> Frame {
    Frame {
        pixel_height: 1,
        pixel_width: 5,
        lines: vec![Line {
            draw_instructions: vec![
                DrawInstruction { offset: 1, colors: vec![1, 2] },
                DrawInstruction { offset: 1, colors: vec![3] },
            ],
        }],
    }
}

#[test]
fn decodes_rgba_palette() {
    let data = palette_bytes(2, &[[10, 20, 30, 40], [50, 60, 70, 80]]);

    let palette = decode_palette(&data).unwrap();

    assert_eq!(
        palette,
        vec![Rgba::from_rgba_unmultiplied(10, 20, 30, 40), Rgba::from_rgba_unmultiplied(50, 60, 70, 80),]
    );
}

#[test]
fn rejects_truncated_palette() {
    let data = palette_bytes(2, &[[10, 20, 30, 40]]);

    assert!(decode_palette(&data).is_err());
    assert_eq!(decode_palette(&data).err(), Some(PaletteError::Truncated));
    assert_eq!(decode_palette(&[1, 0]).err(), Some(PaletteError::TooShort));
}

#[test]
fn rasterizes_offsets_and_palette_indices() {
    let palette = vec![BLACK, RED, GREEN, BLUE];

    let image = frame_to_color_image(&test_frame(), &palette).unwrap();

    assert_eq!((image.width, image.height), (5, 1));
    assert_eq!(image.pixels[0], TRANSPARENT);
    assert_eq!(image.pixels[1], RED);
    assert_eq!(image.pixels[2], GREEN);
    assert_eq!(image.pixels[3], TRANSPARENT);
    assert_eq!(image.pixels[4], BLUE);
}

#[test]
fn rejects_missing_palette_index() {
    let palette = vec![BLACK, RED];

    assert!(frame_to_color_image(&test_frame(), &palette).is_err());
    assert_eq!(frame_to_color_image(&test_frame(), &palette).err(), Some(FrameError::MissingPaletteIndex));
}

#[test]
fn frame_shape_errors() {
    let palette = vec![BLACK, RED, GREEN, BLUE];
    let mut wide = test_frame();
    wide.pixel_width = 4;
    assert_eq!(frame_to_color_image(&wide, &palette).err(), Some(FrameError::ExceedsWidth));
    let mut tall = test_frame();
    tall.pixel_height = 2;
    assert_eq!(frame_to_color_image(&tall, &palette).err(), Some(FrameError::LineCountMismatch));
}

#[test]
fn animation_frames_decode_with_their_palette() {
    let palette = palette_bytes(4, &[[0, 0, 0, 255], [255, 0, 0, 255], [0, 255, 0, 255], [0, 0, 255, 255]]);
    let images = decode_animation_frames(&vec![test_frame(), test_frame()], &palette).unwrap();
    assert_eq!(images.len(), 2);
    assert_eq!(images[1].pixels, vec![TRANSPARENT, RED, GREEN, TRANSPARENT, BLUE]);
    assert!(matches!(decode_animation_frames(&vec![], &palette), Err(AnimationError::NoFrames)));
    assert!(matches!(decode_animation_frames(&vec![test_frame()], &palette_bytes(0, &[])), Err(AnimationError::EmptyPalette)));
}
