use codex_quota::clipboard::{
    check_panel_bitmap, copy_panel_bitmap, describe_file, dib_bytes, dibv5_bytes,
    file_group_descriptor, gdi_pixel_offset, pixel_bytes, png_frame, registered_format,
    to_straight_alpha, PanelBitmap, PngFrame, DIB_HEADER_LEN,
};
use codex_quota::error::AppError;

const HEADER_LEN: usize = 124;

fn snapshot(width: i32, height: i32, pixels: Vec<u8>) -> PanelBitmap {
    PanelBitmap { width, height, pixels }
}

fn header_u16(bytes: &[u8], offset: usize) -> u16 {
    u16::from_le_bytes(bytes[offset..offset + 2].try_into().unwrap())
}

fn header_u32(bytes: &[u8], offset: usize) -> u32 {
    u32::from_le_bytes(bytes[offset..offset + 4].try_into().unwrap())
}

fn header_i32(bytes: &[u8], offset: usize) -> i32 {
    i32::from_le_bytes(bytes[offset..offset + 4].try_into().unwrap())
}

#[test]
fn dibv5_header_describes_a_top_down_32bit_srgb_bitmap() {
    let bytes = dibv5_bytes(&snapshot(3, 2, vec![0; 24])).unwrap();

    assert_eq!(bytes.len(), HEADER_LEN + 24);
    assert_eq!(header_u32(&bytes, 0), 124);
    assert_eq!(header_i32(&bytes, 4), 3);
    assert_eq!(header_i32(&bytes, 8), -2);
    assert_eq!(header_u16(&bytes, 12), 1);
    assert_eq!(header_u16(&bytes, 14), 32);
    assert_eq!(header_u32(&bytes, 16), 3);
    assert_eq!(header_u32(&bytes, 20), 24);
    assert_eq!(header_u32(&bytes, 40), 0x00ff_0000);
    assert_eq!(header_u32(&bytes, 44), 0x0000_ff00);
    assert_eq!(header_u32(&bytes, 48), 0x0000_00ff);
    assert_eq!(header_u32(&bytes, 52), 0xff00_0000);
    assert_eq!(header_u32(&bytes, 56), 0x7352_4742);
}

#[test]
fn dib_header_describes_a_top_down_32bit_bitmap() {
    let bytes = dib_bytes(&snapshot(3, 2, vec![0; 24])).unwrap();
    assert_eq!(bytes.len(), DIB_HEADER_LEN + 24);
    assert_eq!(header_u32(&bytes, 0), 40);
    assert_eq!(header_i32(&bytes, 4), 3);
    assert_eq!(header_i32(&bytes, 8), -2);
    assert_eq!(header_u16(&bytes, 12), 1);
    assert_eq!(header_u16(&bytes, 14), 32);
    assert_eq!(header_u32(&bytes, 16), 0);
    assert_eq!(&bytes[DIB_HEADER_LEN..], &[0; 24]);
}

#[test]
fn dib_header_is_followed_by_pixels_without_flipping_rows() {
    let pixels = vec![
        1, 2, 3, 0, 4, 5, 6, 255, // top row
        7, 8, 9, 0, 10, 11, 12, 255, // bottom row
    ];
    let bytes = dibv5_bytes(&snapshot(2, 2, pixels.clone())).unwrap();

    assert_eq!(&bytes[HEADER_LEN..], &to_straight_alpha(&pixels)[..]);
    assert_eq!(&bytes[HEADER_LEN..HEADER_LEN + 4], &[1, 2, 3, 0]);
}

#[test]
fn premultiplied_pixels_become_straight_alpha() {
    assert_eq!(to_straight_alpha(&[0, 0, 0, 0]), vec![0, 0, 0, 0]);
    assert_eq!(
        to_straight_alpha(&[128, 64, 32, 128]),
        vec![255, 128, 64, 128]
    );
    assert_eq!(
        to_straight_alpha(&[255, 128, 64, 255]),
        vec![255, 128, 64, 255]
    );
}

#[test]
fn straight_alpha_stays_monotonic_and_never_overflows_a_channel() {
    for alpha in 1..=255u8 {
        let mut previous = 0u8;
        for channel in 0..=alpha {
            let straight = to_straight_alpha(&[channel, 0, 0, alpha])[0];
            assert!(straight >= previous, "alpha={alpha} channel={channel}");
            assert_eq!(
                straight == 255,
                channel == alpha,
                "alpha={alpha} channel={channel}"
            );
            previous = straight;
        }
    }
}

#[test]
fn snapshots_whose_buffer_does_not_match_their_size_are_rejected() {
    assert!(pixel_bytes(2, 2) == Some(16));
    assert_ne!(pixel_bytes(2, 2), Some(12));
    assert_eq!(pixel_bytes(-2, 2), None);
}

#[test]
fn file_group_descriptor_names_the_png() {
    let bytes = file_group_descriptor(1234).unwrap();
    assert_eq!(header_u32(&bytes, 0), 1);
    let name: Vec<u16> = "CodexQuota.png".encode_utf16().chain(Some(0)).collect();
    let name_bytes: Vec<u8> = name.iter().flat_map(|unit| unit.to_le_bytes()).collect();
    assert!(bytes
        .windows(name_bytes.len())
        .any(|window| window == name_bytes));
    assert_eq!(header_u32(&bytes, 72), 1234);
}

fn message(error: AppError) -> String {
    error.message().to_owned()
}

#[test]
fn a_name_that_does_not_fit_its_field_is_refused() {
    let longest: String = "n".repeat(259);
    assert!(describe_file(&longest, 1).is_ok());
    let too_long: String = "n".repeat(260);
    assert!(message(describe_file(&too_long, 1).unwrap_err()).contains("截图文件名过长"));
    assert_eq!(describe_file(&longest, 1).unwrap().len(), describe_file("a", 1).unwrap().len());
}

#[test]
fn only_a_whole_bitmap_is_copied() {
    assert!(check_panel_bitmap(&snapshot(2, 2, vec![9; 16])).is_ok());
    let torn = check_panel_bitmap(&snapshot(2, 2, vec![9; 12]));
    assert!(message(torn.unwrap_err()).contains("面板截图尺寸与像素缓冲不一致"));
    assert!(check_panel_bitmap(&snapshot(-2, 2, vec![])).is_err());
    assert!(copy_panel_bitmap(&snapshot(2, 2, vec![9; 12]), vec![1]).is_err());

    let data = copy_panel_bitmap(&snapshot(1, 1, vec![1, 2, 3, 255]), vec![7, 8]).unwrap();
    assert_eq!(data.png, vec![7, 8]);
    assert_eq!(&data.dibv5[HEADER_LEN..], &[1, 2, 3, 255]);
    assert_eq!(data.dib.len(), 44);
    assert_eq!(header_u32(&data.descriptor, 72), 2);
}

#[test]
fn the_pixels_of_a_bitmap_are_found_behind_its_header() {
    let bytes = dib_bytes(&snapshot(1, 1, vec![1, 2, 3, 255])).unwrap();
    assert_eq!(gdi_pixel_offset(&bytes), Some(40));
    assert_eq!(gdi_pixel_offset(&bytes[..39]), None);
}

#[test]
fn a_png_frame_is_checked_before_it_is_encoded() {
    assert_eq!(
        png_frame(&snapshot(2, 1, vec![0; 8])).unwrap(),
        PngFrame { width: 2, height: 1, stride: 8 }
    );
    assert!(message(png_frame(&snapshot(-1, 1, vec![])).unwrap_err()).contains("截图宽度无效"));
    assert!(message(png_frame(&snapshot(1, -1, vec![])).unwrap_err()).contains("截图高度无效"));
    assert!(png_frame(&snapshot(2, 1, vec![0; 7])).is_err());
}

#[test]
fn a_registered_format_is_a_nonzero_word() {
    assert_eq!(registered_format(0xc001), Ok(0xc001));
    assert_eq!(registered_format(0), Err(0));
    assert_eq!(registered_format(0x1_0000), Err(0x1_0000));
}
