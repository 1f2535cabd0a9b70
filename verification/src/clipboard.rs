//! A picture of the panel in the forms that the clipboard offers: bitmaps, a PNG, and a file
//! for the file manager.
use vstd::prelude::*;

use crate::bytes;
use crate::bytes::{push_i32, push_slice, push_u16, push_u32, push_zeros, read_u32};
use crate::error::AppError;
use crate::text;
use crate::text::{encode_utf16, push_wide};

verus! {

/// A picture: rows from top to bottom, four bytes per pixel (blue, green, red, alpha), colours
/// premultiplied by alpha.
pub struct PanelBitmap {
    pub width: i32,
    pub height: i32,
    pub pixels: Vec<u8>,
}

pub const CF_BITMAP: u16 = 2;

pub const CF_DIB: u16 = 8;

pub const CF_DIBV5: u16 = 17;

/// Length of the classic bitmap header.
pub const DIB_HEADER_LEN: usize = 40;

/// Length of the version 5 bitmap header.
pub const DIBV5_HEADER_LEN: usize = 124;

/// Pixels stored as they are.
pub const BI_RGB: u32 = 0;

/// Pixels described by channel masks.
pub const BI_BITFIELDS: u32 = 3;

/// The pixels are sRGB and need no conversion.
pub const LCS_SRGB: u32 = 0x7352_4742;

pub const TYMED_HGLOBAL: u32 = 1;

pub const TYMED_ISTREAM: u32 = 4;

pub const TYMED_GDI: u32 = 16;

/// The index that means the whole, not one part of it.
pub const WHOLE: i32 = -1;

pub const DVASPECT_CONTENT: u32 = 1;

pub const DROPEFFECT_COPY: u32 = 1;

/// The file descriptor has attributes and a size.
pub const FD_ATTRIBUTES_AND_FILESIZE: u32 = 0x44;

pub const FILE_ATTRIBUTE_NORMAL: u32 = 0x80;

/// Code units that a file descriptor holds for the name, its final zero included.
pub const FILE_NAME_UNITS: usize = 260;

/// A colour channel with the premultiplication undone, rounded to the nearest step.
pub open spec fn straight_channel(channel: u8, alpha: u8) -> u8 {
    if alpha == 0 || alpha == 255 {
        channel
    } else {
        let straight = (channel * 255 + alpha as int / 2) / alpha as int;
        if straight > 255 {
            255
        } else {
            straight as u8
        }
    }
}

/// The byte at `i` with the premultiplication undone: colours of whole pixels are divided by
/// their alpha, everything else stays.
pub open spec fn straight_byte(pixels: Seq<u8>, i: int) -> u8 {
    let start = i / 4 * 4;
    if i % 4 != 3 && start + 4 <= pixels.len() {
        straight_channel(pixels[i], pixels[start + 3])
    } else {
        pixels[i]
    }
}

/// A picture with the premultiplication undone.
pub open spec fn straight(pixels: Seq<u8>) -> Seq<u8> {
    Seq::new(pixels.len(), |i: int| straight_byte(pixels, i))
}

fn straighten(channel: u8, alpha: u8) -> (value: u8)
    ensures
        value == straight_channel(channel, alpha),
{
    if alpha == 0 || alpha == 255 {
        return channel;
    }
    let scaled: u32 = (channel as u32 * 255 + alpha as u32 / 2) / alpha as u32;
    proof {
        assert(scaled == (channel * 255 + alpha as int / 2) / alpha as int);
    }
    if scaled > 255 {
        255
    } else {
        scaled as u8
    }
}

pub fn to_straight_alpha(premultiplied: &[u8]) -> (pixels: Vec<u8>)
    ensures
        pixels@ == straight(premultiplied@),
{
    let mut pixels: Vec<u8> = Vec::new();
    let mut i: usize = 0;
    while i < premultiplied.len()
        invariant
            i <= premultiplied.len(),
            pixels@ == straight(premultiplied@).take(i as int),
        decreases premultiplied.len() - i,
    {
        let start: usize = i / 4 * 4;
        let value: u8 = if i % 4 != 3 && premultiplied.len() - start >= 4 {
            straighten(premultiplied[i], premultiplied[start + 3])
        } else {
            premultiplied[i]
        };
        assert(value == straight(premultiplied@)[i as int]);
        pixels.push(value);
        i += 1;
        assert(pixels@ =~= straight(premultiplied@).take(i as int));
    }
    assert(straight(premultiplied@).take(i as int) =~= straight(premultiplied@));
    pixels
}

/// Undoing the premultiplication keeps every alpha, and opaque and fully transparent pixels
/// altogether.
pub proof fn law_straight_alpha_keeps_alpha(pixels: Seq<u8>, pixel: int)
    requires
        0 <= pixel,
        4 * pixel + 4 <= pixels.len(),
    ensures
        straight(pixels).len() == pixels.len(),
        straight(pixels)[4 * pixel + 3] == pixels[4 * pixel + 3],
        pixels[4 * pixel + 3] == 255 || pixels[4 * pixel + 3] == 0 ==> forall|k: int|
            0 <= k < 4 ==> #[trigger] straight(pixels)[4 * pixel + k] == pixels[4 * pixel + k],
{
}

/// Undoing the premultiplication keeps the order of the channel values, and only a channel as
/// strong as its alpha becomes full.
pub proof fn law_straight_alpha_is_monotonic(low: u8, high: u8, alpha: u8)
    requires
        low <= high,
    ensures
        straight_channel(low, alpha) <= straight_channel(high, alpha),
        high <= alpha && alpha > 0 ==> (straight_channel(high, alpha) == 255 <==> high == alpha),
{
    if alpha != 0 && alpha != 255 {
        let a = alpha as int;
        let (x, y) = (low * 255 + a / 2, high * 255 + a / 2);
        vstd::arithmetic::div_mod::lemma_div_is_ordered(x, y, a);
        if high == alpha {
            assert(y / a >= 255) by (nonlinear_arith)
                requires
                    y == a * 255 + a / 2,
                    a > 0,
            ;
        } else if high < alpha {
            assert(y / a < 255) by (nonlinear_arith)
                requires
                    y < a * 255,
                    a > 0,
            ;
        }
    }
}

/// Bytes that a picture of this size holds, if it can be told.
pub open spec fn size_in_bytes(width: int, height: int) -> Option<int> {
    if width < 0 || height < 0 || width * height > usize::MAX || width * height * 4 > usize::MAX {
        None
    } else {
        Some(width * height * 4)
    }
}

pub fn pixel_bytes(width: i32, height: i32) -> (bytes: Option<usize>)
    ensures
        bytes is Some <==> size_in_bytes(width as int, height as int) is Some,
        bytes is Some ==> bytes->0 == size_in_bytes(width as int, height as int)->0,
{
    if width < 0 || height < 0 {
        return None;
    }
    match (width as usize).checked_mul(height as usize) {
        Some(pixels) => pixels.checked_mul(4),
        None => None,
    }
}

/// Header of a version 5 bitmap: rows from top to bottom, 32 bits per pixel, sRGB.
pub open spec fn dibv5_header(width: int, height: int, size: int) -> Seq<u8> {
    bytes::le32(DIBV5_HEADER_LEN as int) + bytes::le32(bytes::unsigned32(width)) + bytes::le32(
        bytes::unsigned32(-height),
    ) + bytes::le16(1) + bytes::le16(32) + bytes::le32(BI_BITFIELDS as int) + bytes::le32(size)
        + bytes::zeros(16) + bytes::le32(0x00ff_0000) + bytes::le32(0x0000_ff00) + bytes::le32(
        0x0000_00ff,
    ) + bytes::le32(0xff00_0000) + bytes::le32(LCS_SRGB as int) + bytes::zeros(64)
}

/// Header of a classic bitmap: rows from top to bottom, 32 bits per pixel.
pub open spec fn dib_header(width: int, height: int, size: int) -> Seq<u8> {
    bytes::le32(DIB_HEADER_LEN as int) + bytes::le32(bytes::unsigned32(width)) + bytes::le32(
        bytes::unsigned32(-height),
    ) + bytes::le16(1) + bytes::le16(32) + bytes::le32(BI_RGB as int) + bytes::le32(size)
        + bytes::zeros(16)
}

/// The picture as a version 5 bitmap; a picture of 4 GiB and more does not fit the format.
pub fn dibv5_bytes(bitmap: &PanelBitmap) -> (encoded: Result<Vec<u8>, AppError>)
    requires
        bitmap.height > i32::MIN,
    ensures
        encoded is Ok <==> bitmap.pixels@.len() <= u32::MAX,
        encoded is Ok ==> encoded->Ok_0@ == dibv5_header(
            bitmap.width as int,
            bitmap.height as int,
            bitmap.pixels@.len() as int,
        ) + straight(bitmap.pixels@),
        encoded is Err ==> encoded->Err_0.is_render("位图数据大小溢出"@),
{
    if bitmap.pixels.len() > 0xffff_ffff {
        return Err(AppError::render("位图数据大小溢出"));
    }
    let mut out: Vec<u8> = Vec::new();
    push_u32(&mut out, DIBV5_HEADER_LEN as u32);
    push_i32(&mut out, bitmap.width);
    push_i32(&mut out, -bitmap.height);
    push_u16(&mut out, 1);
    push_u16(&mut out, 32);
    push_u32(&mut out, BI_BITFIELDS);
    push_u32(&mut out, bitmap.pixels.len() as u32);
    push_zeros(&mut out, 16);
    push_u32(&mut out, 0x00ff_0000);
    push_u32(&mut out, 0x0000_ff00);
    push_u32(&mut out, 0x0000_00ff);
    push_u32(&mut out, 0xff00_0000);
    push_u32(&mut out, LCS_SRGB);
    push_zeros(&mut out, 64);
    assert(out@ =~= dibv5_header(
        bitmap.width as int,
        bitmap.height as int,
        bitmap.pixels@.len() as int,
    ));
    push_slice(&mut out, to_straight_alpha(bitmap.pixels.as_slice()).as_slice());
    Ok(out)
}

/// The picture as a classic bitmap, for programs that know no other.
pub fn dib_bytes(bitmap: &PanelBitmap) -> (encoded: Result<Vec<u8>, AppError>)
    requires
        bitmap.height > i32::MIN,
    ensures
        encoded is Ok <==> bitmap.pixels@.len() <= u32::MAX,
        encoded is Ok ==> encoded->Ok_0@ == dib_header(
            bitmap.width as int,
            bitmap.height as int,
            bitmap.pixels@.len() as int,
        ) + straight(bitmap.pixels@),
        encoded is Err ==> encoded->Err_0.is_render("位图数据大小溢出"@),
{
    if bitmap.pixels.len() > 0xffff_ffff {
        return Err(AppError::render("位图数据大小溢出"));
    }
    let mut out: Vec<u8> = Vec::new();
    push_u32(&mut out, DIB_HEADER_LEN as u32);
    push_i32(&mut out, bitmap.width);
    push_i32(&mut out, -bitmap.height);
    push_u16(&mut out, 1);
    push_u16(&mut out, 32);
    push_u32(&mut out, BI_RGB);
    push_u32(&mut out, bitmap.pixels.len() as u32);
    push_zeros(&mut out, 16);
    assert(out@ =~= dib_header(
        bitmap.width as int,
        bitmap.height as int,
        bitmap.pixels@.len() as int,
    ));
    push_slice(&mut out, to_straight_alpha(bitmap.pixels.as_slice()).as_slice());
    Ok(out)
}

/// Both headers have the length that they declare.
pub proof fn law_headers_have_their_declared_length(width: int, height: int, size: int)
    ensures
        dibv5_header(width, height, size).len() == DIBV5_HEADER_LEN,
        bytes::read_le32(dibv5_header(width, height, size), 0) == DIBV5_HEADER_LEN,
        dib_header(width, height, size).len() == DIB_HEADER_LEN,
        bytes::read_le32(dib_header(width, height, size), 0) == DIB_HEADER_LEN,
{
    bytes::law_le32_reads_back(DIBV5_HEADER_LEN as int);
    bytes::law_le32_reads_back(DIB_HEADER_LEN as int);
    let long = dibv5_header(width, height, size);
    let short = dib_header(width, height, size);
    assert(long.take(4) =~= bytes::le32(DIBV5_HEADER_LEN as int));
    assert(short.take(4) =~= bytes::le32(DIB_HEADER_LEN as int));
    assert forall|k: int| 0 <= k < 4 implies long[k] == long.take(4)[k] by {}
    assert forall|k: int| 0 <= k < 4 implies short[k] == short.take(4)[k] by {}
}

/// Where the pixels of a classic bitmap start; none for bytes that are no such bitmap.
pub open spec fn pixel_start(dib: Seq<u8>) -> Option<int> {
    if dib.len() < DIB_HEADER_LEN || bytes::read_le32(dib, 0) < DIB_HEADER_LEN || bytes::read_le32(
        dib,
        0,
    ) > dib.len() {
        None
    } else {
        Some(bytes::read_le32(dib, 0))
    }
}

pub fn gdi_pixel_offset(dib: &[u8]) -> (offset: Option<usize>)
    ensures
        offset is Some <==> pixel_start(dib@) is Some,
        offset is Some ==> offset->0 == pixel_start(dib@)->0,
{
    if dib.len() < DIB_HEADER_LEN {
        return None;
    }
    let declared: u32 = read_u32(dib, 0);
    if (declared as u64) < DIB_HEADER_LEN as u64 || declared as u64 > dib.len() as u64 {
        return None;
    }
    Some(declared as usize)
}

/// The pixels of an encoded classic bitmap start right behind its header.
pub proof fn law_encoded_pixels_follow_the_header(
    width: int,
    height: int,
    size: int,
    pixels: Seq<u8>,
)
    ensures
        pixel_start(dib_header(width, height, size) + pixels) == Some(DIB_HEADER_LEN as int),
        (dib_header(width, height, size) + pixels).skip(DIB_HEADER_LEN as int) == pixels,
{
    law_headers_have_their_declared_length(width, height, size);
    let header = dib_header(width, height, size);
    let whole = header + pixels;
    assert forall|k: int| 0 <= k < 4 implies whole[k] == header[k] by {}
    assert(whole.skip(DIB_HEADER_LEN as int) =~= pixels);
}

/// What the PNG encoder is told about a picture.
#[derive(Clone, Copy, Debug, PartialEq, Eq, Structural)]
pub struct PngFrame {
    pub width: u32,
    pub height: u32,
    pub stride: u32,
}

/// Checks a picture before it is encoded as PNG: its size and its pixels must agree.
pub fn png_frame(bitmap: &PanelBitmap) -> (frame: Result<PngFrame, AppError>)
    ensures
        bitmap.width < 0 ==> frame is Err && frame->Err_0.is_render("截图宽度无效"@),
        bitmap.width >= 0 && bitmap.height < 0 ==> frame is Err && frame->Err_0.is_render(
            "截图高度无效"@,
        ),
        bitmap.width >= 0 && bitmap.height >= 0 && bitmap.width * 4 > u32::MAX ==> frame is Err
            && frame->Err_0.is_render("截图行宽溢出"@),
        bitmap.width >= 0 && bitmap.height >= 0 && bitmap.width * 4 <= u32::MAX
            && bitmap.width * 4 * bitmap.height != bitmap.pixels@.len() ==> frame is Err
            && frame->Err_0.is_render("截图像素与尺寸不一致"@),
        bitmap.width >= 0 && bitmap.height >= 0 && bitmap.width * 4 <= u32::MAX
            && bitmap.width * 4 * bitmap.height == bitmap.pixels@.len() ==> frame == Ok::<
            PngFrame,
            AppError,
        >(
            PngFrame {
                width: bitmap.width as u32,
                height: bitmap.height as u32,
                stride: (bitmap.width * 4) as u32,
            },
        ),
{
    if bitmap.width < 0 {
        return Err(AppError::render("截图宽度无效"));
    }
    if bitmap.height < 0 {
        return Err(AppError::render("截图高度无效"));
    }
    let stride: u64 = bitmap.width as u64 * 4;
    if stride > 0xffff_ffff {
        return Err(AppError::render("截图行宽溢出"));
    }
    proof {
        assert(0 <= bitmap.width * 4 * bitmap.height <= 0xffff_ffff * 0x7fff_ffff)
            by (nonlinear_arith)
            requires
                0 <= bitmap.width * 4 <= 0xffff_ffff,
                0 <= bitmap.height <= 0x7fff_ffff,
        ;
    }
    if stride * bitmap.height as u64 != bitmap.pixels.len() as u64 {
        return Err(AppError::render("截图像素与尺寸不一致"));
    }
    Ok(PngFrame { width: bitmap.width as u32, height: bitmap.height as u32, stride: stride as u32 })
}

/// Descriptor of one file of `size` bytes: attributes and size, no dates, and the name filled
/// up with zeros.
pub open spec fn descriptor_of(name: Seq<char>, size: int) -> Seq<u8> {
    bytes::le32(1) + bytes::le32(FD_ATTRIBUTES_AND_FILESIZE as int) + bytes::zeros(32)
        + bytes::le32(FILE_ATTRIBUTE_NORMAL as int) + bytes::zeros(28) + bytes::le32(size)
        + text::wide_bytes(text::utf16(name)) + bytes::zeros(
        (2 * (FILE_NAME_UNITS - text::utf16(name).len())) as nat,
    )
}

/// Describes one file; a name that leaves no room for its final zero is refused.
pub fn describe_file(name: &str, size: u32) -> (encoded: Result<Vec<u8>, AppError>)
    ensures
        encoded is Ok <==> text::utf16(name@).len() < FILE_NAME_UNITS,
        encoded is Ok ==> encoded->Ok_0@ == descriptor_of(name@, size as int),
        encoded is Err ==> encoded->Err_0.is_render("截图文件名过长"@),
{
    let units = encode_utf16(name);
    if units.len() >= FILE_NAME_UNITS {
        return Err(AppError::render("截图文件名过长"));
    }
    let mut out: Vec<u8> = Vec::new();
    push_u32(&mut out, 1);
    push_u32(&mut out, FD_ATTRIBUTES_AND_FILESIZE);
    push_zeros(&mut out, 32);
    push_u32(&mut out, FILE_ATTRIBUTE_NORMAL);
    push_zeros(&mut out, 28);
    push_u32(&mut out, size);
    let ghost head = out@;
    assert(head =~= bytes::le32(1) + bytes::le32(FD_ATTRIBUTES_AND_FILESIZE as int)
        + bytes::zeros(32) + bytes::le32(FILE_ATTRIBUTE_NORMAL as int) + bytes::zeros(28)
        + bytes::le32(size as int));
    push_wide(&mut out, units.as_slice());
    push_zeros(&mut out, 2 * (FILE_NAME_UNITS - units.len()));
    Ok(out)
}

/// A descriptor has its fixed length, and the size stands at its fixed place.
pub proof fn law_descriptor_layout(name: Seq<char>, size: int)
    requires
        text::utf16(name).len() < FILE_NAME_UNITS,
        0 <= size <= u32::MAX,
    ensures
        descriptor_of(name, size).len() == 596,
        bytes::read_le32(descriptor_of(name, size), 0) == 1,
        bytes::read_le32(descriptor_of(name, size), 72) == size,
        descriptor_of(name, size).subrange(76, 76 + 2 * text::utf16(name).len() as int)
            == text::wide_bytes(text::utf16(name)),
{
    let d = descriptor_of(name, size);
    text::lemma_wide_bytes_len(text::utf16(name));
    bytes::law_le32_reads_back(1);
    bytes::law_le32_reads_back(size);
    assert(d.subrange(0, 4) =~= bytes::le32(1));
    assert(d.subrange(72, 76) =~= bytes::le32(size));
    assert forall|k: int| 0 <= k < 4 implies d[k] == d.subrange(0, 4)[k] by {}
    assert forall|k: int| 0 <= k < 4 implies d[72 + k] == d.subrange(72, 76)[k] by {}
    assert(d.subrange(76, 76 + 2 * text::utf16(name).len() as int) =~= text::wide_bytes(
        text::utf16(name),
    ));
}

proof fn lemma_utf16_len(name: Seq<char>)
    ensures
        text::utf16(name).len() <= 2 * name.len(),
    decreases name.len(),
{
    if name.len() > 0 {
        lemma_utf16_len(name.drop_last());
    }
}

/// Descriptor of the pasted picture file.
pub fn file_group_descriptor(png_len: u32) -> (encoded: Result<Vec<u8>, AppError>)
    ensures
        encoded is Ok,
        encoded->Ok_0@ == descriptor_of("CodexQuota.png"@, png_len as int),
{
    proof {
        reveal_strlit("CodexQuota.png");
        lemma_utf16_len("CodexQuota.png"@);
    }
    describe_file("CodexQuota.png", png_len)
}

/// Identifiers under which the named clipboard formats are registered.
#[derive(Clone, Copy, Debug, PartialEq, Eq, Structural)]
pub struct ClipboardFormats {
    pub png: u16,
    pub file_descriptor: u16,
    pub file_contents: u16,
    pub drop_effect: u16,
}

/// The identifier that a registration returned: zero means failure, and a format identifier is
/// 16 bits wide.
pub fn registered_format(id: u32) -> (format: Result<u16, u32>)
    ensures
        0 < id <= u16::MAX ==> format == Ok::<u16, u32>(id as u16),
        id == 0 || id > u16::MAX ==> format == Err::<u16, u32>(id),
{
    if id == 0 || id > 0xffff {
        Err(id)
    } else {
        Ok(id as u16)
    }
}

/// What the clipboard can be asked for.
#[derive(Clone, Copy, Debug, PartialEq, Eq, Structural)]
pub enum ClipboardOffer {
    Dibv5,
    Dib,
    Bitmap,
    Png,
    FileDescriptor,
    FileContents,
    DropEffect,
}

/// One row of the table of formats: identifier, media, index and what it stands for.
#[derive(Clone, Copy, Debug, PartialEq, Eq, Structural)]
pub struct OfferRow {
    pub format: u16,
    pub tymed: u32,
    pub lindex: i32,
    pub offer: ClipboardOffer,
}

/// The formats, in the order in which they are preferred.
pub open spec fn offer_table(formats: ClipboardFormats) -> Seq<OfferRow> {
    seq![
        OfferRow {
            format: formats.png,
            tymed: TYMED_HGLOBAL,
            lindex: WHOLE,
            offer: ClipboardOffer::Png,
        },
        OfferRow {
            format: formats.file_descriptor,
            tymed: TYMED_HGLOBAL,
            lindex: WHOLE,
            offer: ClipboardOffer::FileDescriptor,
        },
        OfferRow {
            format: formats.file_contents,
            tymed: (TYMED_ISTREAM + TYMED_HGLOBAL) as u32,
            lindex: 0,
            offer: ClipboardOffer::FileContents,
        },
        OfferRow {
            format: CF_DIBV5,
            tymed: TYMED_HGLOBAL,
            lindex: WHOLE,
            offer: ClipboardOffer::Dibv5,
        },
        OfferRow {
            format: CF_DIB,
            tymed: TYMED_HGLOBAL,
            lindex: WHOLE,
            offer: ClipboardOffer::Dib,
        },
        OfferRow {
            format: CF_BITMAP,
            tymed: TYMED_GDI,
            lindex: WHOLE,
            offer: ClipboardOffer::Bitmap,
        },
        OfferRow {
            format: formats.drop_effect,
            tymed: TYMED_HGLOBAL,
            lindex: WHOLE,
            offer: ClipboardOffer::DropEffect,
        },
    ]
}

pub fn offers(formats: &ClipboardFormats) -> (rows: Vec<OfferRow>)
    ensures
        rows@ == offer_table(*formats),
{
    let rows = vec![
        OfferRow {
            format: formats.png,
            tymed: TYMED_HGLOBAL,
            lindex: WHOLE,
            offer: ClipboardOffer::Png,
        },
        OfferRow {
            format: formats.file_descriptor,
            tymed: TYMED_HGLOBAL,
            lindex: WHOLE,
            offer: ClipboardOffer::FileDescriptor,
        },
        OfferRow {
            format: formats.file_contents,
            tymed: TYMED_ISTREAM + TYMED_HGLOBAL,
            lindex: 0,
            offer: ClipboardOffer::FileContents,
        },
        OfferRow {
            format: CF_DIBV5,
            tymed: TYMED_HGLOBAL,
            lindex: WHOLE,
            offer: ClipboardOffer::Dibv5,
        },
        OfferRow {
            format: CF_DIB,
            tymed: TYMED_HGLOBAL,
            lindex: WHOLE,
            offer: ClipboardOffer::Dib,
        },
        OfferRow {
            format: CF_BITMAP,
            tymed: TYMED_GDI,
            lindex: WHOLE,
            offer: ClipboardOffer::Bitmap,
        },
        OfferRow {
            format: formats.drop_effect,
            tymed: TYMED_HGLOBAL,
            lindex: WHOLE,
            offer: ClipboardOffer::DropEffect,
        },
    ];
    assert(rows@ =~= offer_table(*formats));
    rows
}

/// What a program asks of the clipboard.
#[derive(Clone, Copy, Debug, PartialEq, Eq, Structural)]
pub struct FormatRequest {
    pub format: u16,
    pub has_target_device: bool,
    pub aspect: u32,
    pub lindex: i32,
    pub tymed: u32,
}

/// A request for the content itself, on any device.
pub open spec fn asks_for_content(request: FormatRequest) -> bool {
    !request.has_target_device && (request.aspect == 0 || request.aspect == DVASPECT_CONTENT)
}

/// Whether a row answers a request: the same format, a medium in common, and its index or any.
pub open spec fn row_answers(row: OfferRow, request: FormatRequest) -> bool {
    &&& request.format == row.format
    &&& request.tymed & row.tymed != 0u32
    &&& request.lindex == row.lindex || request.lindex == WHOLE
}

/// Whether `offer` is the answer to a request: that of the first row that answers it.
pub open spec fn answers(
    table: Seq<OfferRow>,
    request: FormatRequest,
    offer: ClipboardOffer,
) -> bool {
    asks_for_content(request) && exists|i: int|
        #![trigger table[i]]
        0 <= i < table.len() && row_answers(table[i], request) && table[i].offer == offer
            && forall|j: int| 0 <= j < i ==> !row_answers(#[trigger] table[j], request)
}

/// Whether no row answers a request.
pub open spec fn no_row_answers(table: Seq<OfferRow>, request: FormatRequest) -> bool {
    forall|i: int| 0 <= i < table.len() ==> !row_answers(#[trigger] table[i], request)
}

pub fn match_offer(formats: &ClipboardFormats, request: &FormatRequest) -> (found: Option<
    ClipboardOffer,
>)
    ensures
        found is Some ==> answers(offer_table(*formats), *request, found->0),
        found is None ==> !asks_for_content(*request) || forall|i: int|
            0 <= i < 7 ==> !row_answers(#[trigger] offer_table(*formats)[i], *request),
        found is None ==> !asks_for_content(*request) || no_row_answers(
            offer_table(*formats),
            *request,
        ),
{
    if request.has_target_device || !(request.aspect == 0 || request.aspect == DVASPECT_CONTENT) {
        return None;
    }
    let rows = offers(formats);
    let mut i: usize = 0;
    while i < rows.len()
        invariant
            i <= rows.len(),
            rows@ == offer_table(*formats),
            asks_for_content(*request),
            forall|j: int| 0 <= j < i ==> !row_answers(#[trigger] rows@[j], *request),
        decreases rows.len() - i,
    {
        let row = rows[i];
        if request.format == row.format && request.tymed & row.tymed != 0 && (request.lindex
            == row.lindex || request.lindex == WHOLE) {
            assert(row_answers(rows@[i as int], *request));
            return Some(row.offer);
        }
        i += 1;
    }
    None
}

/// Whatever is listed can be had: asking for a listed row is answered with that row's offer,
/// as long as the registered identifiers differ from each other and from the fixed ones.
pub proof fn law_listed_formats_are_answered(formats: ClipboardFormats, i: int)
    requires
        0 <= i < 7,
        forall|j: int, k: int|
            0 <= j < k < 7 ==> (#[trigger] offer_table(formats)[j]).format != (
            #[trigger] offer_table(formats)[k]).format,
    ensures
        ({
            let row = offer_table(formats)[i];
            answers(
                offer_table(formats),
                FormatRequest {
                    format: row.format,
                    has_target_device: false,
                    aspect: DVASPECT_CONTENT,
                    lindex: row.lindex,
                    tymed: row.tymed,
                },
                row.offer,
            )
        }),
{
    let table = offer_table(formats);
    let row = table[i];
    let request = FormatRequest {
        format: row.format,
        has_target_device: false,
        aspect: DVASPECT_CONTENT,
        lindex: row.lindex,
        tymed: row.tymed,
    };
    assert(1u32 & 1u32 != 0u32) by (bit_vector);
    assert(5u32 & 5u32 != 0u32) by (bit_vector);
    assert(16u32 & 16u32 != 0u32) by (bit_vector);
    assert(row_answers(table[i], request));
    assert forall|j: int| 0 <= j < i implies !row_answers(#[trigger] table[j], request) by {
        assert(table[j].format != table[i].format);
    }
}

/// Which bytes answer an offer.
#[derive(Clone, Copy, Debug, PartialEq, Eq, Structural)]
pub enum Payload {
    Dibv5,
    Dib,
    Png,
    Descriptor,
    DropEffect,
}

/// The medium on which an answer is handed over.
#[derive(Clone, Copy, Debug, PartialEq, Eq, Structural)]
pub enum Medium {
    Memory(Payload),
    Stream(Payload),
    GdiBitmap,
}

/// The medium for an offer: file contents go as a stream where the asker takes one, a bitmap
/// handle is made from the classic bitmap, and everything else goes as memory.
pub open spec fn medium_of(offer: ClipboardOffer, tymed: u32) -> Medium {
    match offer {
        ClipboardOffer::Dibv5 => Medium::Memory(Payload::Dibv5),
        ClipboardOffer::Dib => Medium::Memory(Payload::Dib),
        ClipboardOffer::Bitmap => Medium::GdiBitmap,
        ClipboardOffer::Png => Medium::Memory(Payload::Png),
        ClipboardOffer::FileDescriptor => Medium::Memory(Payload::Descriptor),
        ClipboardOffer::FileContents => if tymed & TYMED_ISTREAM != 0u32 {
            Medium::Stream(Payload::Png)
        } else {
            Medium::Memory(Payload::Png)
        },
        ClipboardOffer::DropEffect => Medium::Memory(Payload::DropEffect),
    }
}

/// How to answer a request, if it can be answered at all.
pub fn medium_for(formats: &ClipboardFormats, request: &FormatRequest) -> (medium: Option<Medium>)
    ensures
        medium is Some ==> exists|offer: ClipboardOffer| #[trigger]
            answers(offer_table(*formats), *request, offer) && medium->0 == medium_of(
                offer,
                request.tymed,
            ),
        medium is None ==> !asks_for_content(*request) || forall|i: int|
            0 <= i < 7 ==> !row_answers(#[trigger] offer_table(*formats)[i], *request),
        medium is None ==> !asks_for_content(*request) || no_row_answers(
            offer_table(*formats),
            *request,
        ),
{
    match match_offer(formats, request) {
        Some(offer) => Some(
            match offer {
                ClipboardOffer::Dibv5 => Medium::Memory(Payload::Dibv5),
                ClipboardOffer::Dib => Medium::Memory(Payload::Dib),
                ClipboardOffer::Bitmap => Medium::GdiBitmap,
                ClipboardOffer::Png => Medium::Memory(Payload::Png),
                ClipboardOffer::FileDescriptor => Medium::Memory(Payload::Descriptor),
                ClipboardOffer::FileContents => if request.tymed & TYMED_ISTREAM != 0 {
                    Medium::Stream(Payload::Png)
                } else {
                    Medium::Memory(Payload::Png)
                },
                ClipboardOffer::DropEffect => Medium::Memory(Payload::DropEffect),
            },
        ),
        None => None,
    }
}

/// The picture in all the forms that are handed out.
pub struct SnapshotData {
    pub dibv5: Vec<u8>,
    pub dib: Vec<u8>,
    pub png: Vec<u8>,
    pub descriptor: Vec<u8>,
}

/// The bytes of a payload.
pub open spec fn payload_bytes(data: SnapshotData, payload: Payload) -> Seq<u8> {
    match payload {
        Payload::Dibv5 => data.dibv5@,
        Payload::Dib => data.dib@,
        Payload::Png => data.png@,
        Payload::Descriptor => data.descriptor@,
        Payload::DropEffect => bytes::le32(DROPEFFECT_COPY as int),
    }
}

impl SnapshotData {
    pub fn bytes_of(&self, payload: Payload) -> (contents: Vec<u8>)
        ensures
            contents@ == payload_bytes(*self, payload),
    {
        let mut contents: Vec<u8> = Vec::new();
        match payload {
            Payload::Dibv5 => push_slice(&mut contents, self.dibv5.as_slice()),
            Payload::Dib => push_slice(&mut contents, self.dib.as_slice()),
            Payload::Png => push_slice(&mut contents, self.png.as_slice()),
            Payload::Descriptor => push_slice(&mut contents, self.descriptor.as_slice()),
            Payload::DropEffect => push_u32(&mut contents, DROPEFFECT_COPY),
        }
        assert(contents@ =~= payload_bytes(*self, payload));
        contents
    }
}

/// A picture whose size and pixels agree, which can be copied.
pub open spec fn is_copyable(bitmap: PanelBitmap) -> bool {
    size_in_bytes(bitmap.width as int, bitmap.height as int) == Some(bitmap.pixels@.len() as int)
}

/// Refuses a picture whose pixels do not match its size: a receiver would read past the end.
pub fn check_panel_bitmap(bitmap: &PanelBitmap) -> (checked: Result<(), AppError>)
    ensures
        checked is Ok <==> is_copyable(*bitmap),
        checked is Err ==> checked->Err_0.is_render("面板截图尺寸与像素缓冲不一致"@),
{
    let matches = match pixel_bytes(bitmap.width, bitmap.height) {
        Some(bytes) => bytes == bitmap.pixels.len(),
        None => false,
    };
    if matches {
        Ok(())
    } else {
        Err(AppError::render("面板截图尺寸与像素缓冲不一致"))
    }
}

/// Everything the clipboard hands out, made before anything already there is replaced; `png` is
/// the picture as the system encoded it.
pub fn copy_panel_bitmap(bitmap: &PanelBitmap, png: Vec<u8>) -> (data: Result<
    SnapshotData,
    AppError,
>)
    ensures
        !is_copyable(*bitmap) ==> data is Err && data->Err_0.is_render(
            "面板截图尺寸与像素缓冲不一致"@,
        ),
        is_copyable(*bitmap) && bitmap.pixels@.len() > u32::MAX ==> data is Err
            && data->Err_0.is_render("位图数据大小溢出"@),
        is_copyable(*bitmap) && bitmap.pixels@.len() <= u32::MAX && png@.len() > u32::MAX
            ==> data is Err && data->Err_0.is_render("PNG 过大"@),
        is_copyable(*bitmap) && bitmap.pixels@.len() <= u32::MAX && png@.len() <= u32::MAX ==> {
            &&& data is Ok
            &&& data->Ok_0.dibv5@ == dibv5_header(
                bitmap.width as int,
                bitmap.height as int,
                bitmap.pixels@.len() as int,
            ) + straight(bitmap.pixels@)
            &&& data->Ok_0.dib@ == dib_header(
                bitmap.width as int,
                bitmap.height as int,
                bitmap.pixels@.len() as int,
            ) + straight(bitmap.pixels@)
            &&& data->Ok_0.png == png
            &&& data->Ok_0.descriptor@ == descriptor_of("CodexQuota.png"@, png@.len() as int)
        },
{
    match check_panel_bitmap(bitmap) {
        Ok(()) => {},
        Err(error) => return Err(error),
    }
    let dibv5 = match dibv5_bytes(bitmap) {
        Ok(encoded) => encoded,
        Err(error) => return Err(error),
    };
    let dib = match dib_bytes(bitmap) {
        Ok(encoded) => encoded,
        Err(error) => return Err(error),
    };
    if png.len() > 0xffff_ffff {
        return Err(AppError::render("PNG 过大"));
    }
    let descriptor = match file_group_descriptor(png.len() as u32) {
        Ok(encoded) => encoded,
        Err(error) => return Err(error),
    };
    Ok(SnapshotData { dibv5, dib, png, descriptor })
}

/// A premultiplied channel no stronger than its alpha becomes the nearest share of its alpha in
/// steps of one 255th; alpha itself, opaque and fully transparent pixels and what is left over
/// behind the last whole pixel stay.
pub proof fn law_colours_are_divided_by_their_alpha(
    premultiplied: &[u8],
    pixels: Vec<u8>,
    pixel: int,
    channel: int,
)
    requires
        call_ensures(to_straight_alpha, (premultiplied,), pixels),
        0 <= pixel,
        0 <= channel < 3,
        4 * pixel + 4 <= premultiplied@.len(),
    ensures
        pixels@.len() == premultiplied@.len(),
        pixels@[4 * pixel + 3] == premultiplied@[4 * pixel + 3],
        ({
            let before = premultiplied@[4 * pixel + channel];
            let after = pixels@[4 * pixel + channel];
            let alpha = premultiplied@[4 * pixel + 3];
            &&& alpha == 0 || alpha == 255 ==> after == before
            &&& 0 < alpha < 255 && before <= alpha ==> -alpha <= 2 * (after * alpha - before * 255)
                <= alpha
            &&& 0 < alpha < 255 && before >= alpha ==> after == 255
        }),
{
    let i = 4 * pixel + channel;
    assert(i / 4 * 4 == 4 * pixel && i % 4 == channel);
    assert((4 * pixel + 3) % 4 == 3);
    let a = premultiplied@[4 * pixel + 3] as int;
    let c = premultiplied@[i] as int;
    if 0 < a < 255 {
        let x = c * 255 + a / 2;
        let q = x / a;
        vstd::arithmetic::div_mod::lemma_fundamental_div_mod(x, a);
        vstd::arithmetic::div_mod::lemma_mod_bound(x, a);
        assert(a * q == q * a) by (nonlinear_arith);
        if c >= a {
            assert(q >= 255) by (nonlinear_arith)
                requires
                    x >= a * 255,
                    q == x / a,
                    a > 0,
            ;
        }
        if c <= a {
            assert(q <= 255) by (nonlinear_arith)
                requires
                    x < a * 256,
                    q == x / a,
                    a > 0,
            ;
        }
    }
}

/// What is left over behind the last whole pixel is not touched.
pub proof fn law_left_over_bytes_stay(premultiplied: &[u8], pixels: Vec<u8>, i: int)
    requires
        call_ensures(to_straight_alpha, (premultiplied,), pixels),
        0 <= i < premultiplied@.len(),
        i / 4 * 4 + 4 > premultiplied@.len(),
    ensures
        pixels@[i] == premultiplied@[i],
{
}

/// A picture has four bytes a pixel; a size that is negative or too large to count has none.
pub proof fn law_pictures_have_four_bytes_a_pixel(width: i32, height: i32, size: Option<usize>)
    requires
        call_ensures(pixel_bytes, (width, height), size),
    ensures
        size is Some <==> width >= 0 && height >= 0 && 4 * (width * height) <= usize::MAX,
        size is Some ==> size->0 == 4 * (width * height),
{
    if width >= 0 && height >= 0 {
        assert(width * height >= 0) by (nonlinear_arith)
            requires
                width >= 0,
                height >= 0,
        ;
    }
}

/// The four bytes from `at` on, lowest first.
pub open spec fn number_at(data: Seq<u8>, at: int) -> int {
    data[at] + 256 * data[at + 1] + 65_536 * data[at + 2] + 16_777_216 * data[at + 3]
}

proof fn lemma_number_in(data: Seq<u8>, at: int, n: int)
    requires
        0 <= n <= u32::MAX,
        0 <= at,
        at + 4 <= data.len(),
        data.subrange(at, at + 4) == bytes::le32(n),
    ensures
        number_at(data, at) == n,
{
    bytes::lemma_field_reads_back(data, at, n);
}

/// A version 5 bitmap says its header's length, its width, its height counted downwards, one plane
/// of 32 bits, that its channels are masked, its size, the masks of red, green, blue and alpha, and
/// sRGB; behind the header come the pixels with the premultiplication undone.
#[verifier::spinoff_prover]
#[verifier::rlimit(50)]
pub proof fn law_a_version_5_bitmap_describes_itself(
    bitmap: &PanelBitmap,
    encoded: Result<Vec<u8>, AppError>,
    pixels: Vec<u8>,
    premultiplied: &[u8],
)
    requires
        bitmap.height > i32::MIN,
        call_ensures(dibv5_bytes, (bitmap,), encoded),
        premultiplied@ == bitmap.pixels@,
        call_ensures(to_straight_alpha, (premultiplied,), pixels),
    ensures
        encoded is Ok <==> bitmap.pixels@.len() <= 4_294_967_295,
        encoded is Ok ==> ({
            let data = encoded->Ok_0@;
            &&& data.len() == 124 + bitmap.pixels@.len()
            &&& number_at(data, 0) == 124
            &&& number_at(data, 4) == (if bitmap.width < 0 {
                bitmap.width + 4_294_967_296
            } else {
                bitmap.width as int
            })
            &&& number_at(data, 8) == (if bitmap.height > 0 {
                4_294_967_296 - bitmap.height
            } else {
                -bitmap.height
            })
            &&& data[12] == 1 && data[13] == 0
            &&& data[14] == 32 && data[15] == 0
            &&& number_at(data, 16) == 3
            &&& number_at(data, 20) == bitmap.pixels@.len()
            &&& number_at(data, 40) == 0x00ff_0000
            &&& number_at(data, 44) == 0x0000_ff00
            &&& number_at(data, 48) == 0x0000_00ff
            &&& number_at(data, 52) == 0xff00_0000
            &&& number_at(data, 56) == 0x7352_4742
            &&& forall|i: int| 24 <= i < 40 || 60 <= i < 124 ==> #[trigger] data[i] == 0
            &&& data.skip(124) == pixels@
        }),
{
    if encoded is Ok {
        let data = encoded->Ok_0@;
        let (width, height) = (bitmap.width as int, bitmap.height as int);
        let size = bitmap.pixels@.len() as int;
        let header = dibv5_header(width, height, size);
        law_headers_have_their_declared_length(width, height, size);
        assert(data == header + straight(bitmap.pixels@));
        assert(data.subrange(0, 4) =~= bytes::le32(124));
        assert(data.subrange(4, 8) =~= bytes::le32(bytes::unsigned32(width)));
        assert(data.subrange(8, 12) =~= bytes::le32(bytes::unsigned32(-height)));
        assert(data.subrange(12, 14) =~= bytes::le16(1));
        assert(data.subrange(14, 16) =~= bytes::le16(32));
        assert(data.subrange(16, 20) =~= bytes::le32(3));
        assert(data.subrange(20, 24) =~= bytes::le32(size));
        assert(data.subrange(24, 40) =~= bytes::zeros(16));
        assert(data.subrange(40, 44) =~= bytes::le32(0x00ff_0000));
        assert(data.subrange(44, 48) =~= bytes::le32(0x0000_ff00));
        assert(data.subrange(48, 52) =~= bytes::le32(0x0000_00ff));
        assert(data.subrange(52, 56) =~= bytes::le32(0xff00_0000));
        assert(data.subrange(56, 60) =~= bytes::le32(0x7352_4742));
        assert(data.subrange(60, 124) =~= bytes::zeros(64));
        assert(data[12] == data.subrange(12, 14)[0] && data[13] == data.subrange(12, 14)[1]);
        assert(data[14] == data.subrange(14, 16)[0] && data[15] == data.subrange(14, 16)[1]);
        lemma_number_in(data, 0, 124);
        lemma_number_in(data, 4, bytes::unsigned32(width));
        lemma_number_in(data, 8, bytes::unsigned32(-height));
        lemma_number_in(data, 16, 3);
        lemma_number_in(data, 20, size);
        lemma_number_in(data, 40, 0x00ff_0000);
        lemma_number_in(data, 44, 0x0000_ff00);
        lemma_number_in(data, 48, 0x0000_00ff);
        lemma_number_in(data, 52, 0xff00_0000);
        lemma_number_in(data, 56, 0x7352_4742);
        assert forall|i: int| 24 <= i < 40 || 60 <= i < 124 implies #[trigger] data[i] == 0 by {
            if i < 40 {
                assert(data[i] == data.subrange(24, 40)[i - 24]);
            } else {
                assert(data[i] == data.subrange(60, 124)[i - 60]);
            }
        }
        assert(data.skip(124) =~= pixels@);
    }
}

/// A classic bitmap says its header's length, its width, its height counted downwards, one plane of
/// 32 bits as they are, and its size; behind the header come the pixels with the premultiplication
/// undone, and there they are found again.
#[verifier::spinoff_prover]
#[verifier::rlimit(50)]
pub proof fn law_a_classic_bitmap_describes_itself(
    bitmap: &PanelBitmap,
    encoded: Result<Vec<u8>, AppError>,
    pixels: Vec<u8>,
    premultiplied: &[u8],
    dib: &[u8],
    offset: Option<usize>,
)
    requires
        bitmap.height > i32::MIN,
        call_ensures(dib_bytes, (bitmap,), encoded),
        premultiplied@ == bitmap.pixels@,
        call_ensures(to_straight_alpha, (premultiplied,), pixels),
        encoded is Ok ==> dib@ == encoded->Ok_0@,
        call_ensures(gdi_pixel_offset, (dib,), offset),
    ensures
        encoded is Ok <==> bitmap.pixels@.len() <= 4_294_967_295,
        encoded is Ok ==> ({
            let data = encoded->Ok_0@;
            &&& data.len() == 40 + bitmap.pixels@.len()
            &&& number_at(data, 0) == 40
            &&& number_at(data, 4) == (if bitmap.width < 0 {
                bitmap.width + 4_294_967_296
            } else {
                bitmap.width as int
            })
            &&& number_at(data, 8) == (if bitmap.height > 0 {
                4_294_967_296 - bitmap.height
            } else {
                -bitmap.height
            })
            &&& data[12] == 1 && data[13] == 0
            &&& data[14] == 32 && data[15] == 0
            &&& number_at(data, 16) == 0
            &&& number_at(data, 20) == bitmap.pixels@.len()
            &&& forall|i: int| 24 <= i < 40 ==> #[trigger] data[i] == 0
            &&& data.skip(40) == pixels@
            &&& offset == Some(40usize)
        }),
{
    if encoded is Ok {
        let data = encoded->Ok_0@;
        let (width, height) = (bitmap.width as int, bitmap.height as int);
        let size = bitmap.pixels@.len() as int;
        let header = dib_header(width, height, size);
        law_headers_have_their_declared_length(width, height, size);
        law_encoded_pixels_follow_the_header(width, height, size, straight(bitmap.pixels@));
        assert(data == header + straight(bitmap.pixels@));
        assert(data.subrange(0, 4) =~= bytes::le32(40));
        assert(data.subrange(4, 8) =~= bytes::le32(bytes::unsigned32(width)));
        assert(data.subrange(8, 12) =~= bytes::le32(bytes::unsigned32(-height)));
        assert(data.subrange(12, 14) =~= bytes::le16(1));
        assert(data.subrange(14, 16) =~= bytes::le16(32));
        assert(data.subrange(16, 20) =~= bytes::le32(0));
        assert(data.subrange(20, 24) =~= bytes::le32(size));
        assert(data.subrange(24, 40) =~= bytes::zeros(16));
        assert(data[12] == data.subrange(12, 14)[0] && data[13] == data.subrange(12, 14)[1]);
        assert(data[14] == data.subrange(14, 16)[0] && data[15] == data.subrange(14, 16)[1]);
        lemma_number_in(data, 0, 40);
        lemma_number_in(data, 4, bytes::unsigned32(width));
        lemma_number_in(data, 8, bytes::unsigned32(-height));
        lemma_number_in(data, 16, 0);
        lemma_number_in(data, 20, size);
        assert forall|i: int| 24 <= i < 40 implies #[trigger] data[i] == 0 by {
            assert(data[i] == data.subrange(24, 40)[i - 24]);
        }
        assert(data.skip(40) =~= pixels@);
    }
}

/// The pixels of a bitmap start where its header says it ends, if that is at least forty bytes and
/// within the bitmap.
pub proof fn law_pixels_start_where_the_header_ends(dib: &[u8], offset: Option<usize>)
    requires
        call_ensures(gdi_pixel_offset, (dib,), offset),
    ensures
        offset is Some <==> dib@.len() >= 40 && 40 <= number_at(dib@, 0) <= dib@.len(),
        offset is Some ==> offset->0 == number_at(dib@, 0),
{
}

/// A file's description is 592 bytes behind a count of one: that it has attributes and a size, that
/// the attributes are normal, the size, and its name in UTF-16 filled up with zeros. A name that
/// leaves no room for its final zero is refused.
#[verifier::spinoff_prover]
#[verifier::rlimit(50)]
pub proof fn law_a_file_is_described(
    name: &str,
    size: u32,
    encoded: Result<Vec<u8>, AppError>,
    units: Vec<u16>,
    i: int,
)
    requires
        call_ensures(describe_file, (name, size), encoded),
        call_ensures(encode_utf16, (name,), units),
        0 <= i < 260,
    ensures
        encoded is Ok <==> units@.len() < 260,
        encoded is Ok ==> ({
            let data = encoded->Ok_0@;
            &&& data.len() == 596
            &&& number_at(data, 0) == 1
            &&& number_at(data, 4) == 0x44
            &&& number_at(data, 40) == 0x80
            &&& number_at(data, 72) == size
            &&& data[76 + 2 * i] + 256 * data[77 + 2 * i] == (if i < units@.len() {
                units@[i] as int
            } else {
                0
            })
        }),
{
    if encoded is Ok {
        let data = encoded->Ok_0@;
        let name_bytes = text::wide_bytes(units@);
        let n = units@.len() as int;
        text::lemma_wide_bytes_len(units@);
        assert(data.len() == 596);
        assert(data.subrange(0, 4) =~= bytes::le32(1));
        assert(data.subrange(4, 8) =~= bytes::le32(0x44));
        assert(data.subrange(40, 44) =~= bytes::le32(0x80));
        assert(data.subrange(72, 76) =~= bytes::le32(size as int));
        lemma_number_in(data, 0, 1);
        lemma_number_in(data, 4, 0x44);
        lemma_number_in(data, 40, 0x80);
        lemma_number_in(data, 72, size as int);
        let filled = data.subrange(76 + 2 * n, 596);
        assert(data.subrange(76, 76 + 2 * n) =~= name_bytes);
        assert(filled =~= bytes::zeros((2 * (260 - n)) as nat));
        if i < n {
            text::lemma_wide_byte_pairs(units@, i);
            assert(data[76 + 2 * i] == data.subrange(76, 76 + 2 * n)[2 * i]);
            assert(data[77 + 2 * i] == data.subrange(76, 76 + 2 * n)[2 * i + 1]);
        } else {
            assert(data[76 + 2 * i] == filled[2 * i - 2 * n]);
            assert(data[77 + 2 * i] == filled[2 * i + 1 - 2 * n]);
        }
    }
}

/// The pasted file is described as `CodexQuota.png`, and the description never fails.
pub proof fn law_the_picture_has_a_name(
    png_len: u32,
    encoded: Result<Vec<u8>, AppError>,
    name: &str,
    expected: Result<Vec<u8>, AppError>,
)
    requires
        call_ensures(file_group_descriptor, (png_len,), encoded),
        name@ == "CodexQuota.png"@,
        call_ensures(describe_file, (name, png_len), expected),
    ensures
        encoded is Ok,
        expected is Ok ==> encoded->Ok_0@ == expected->Ok_0@,
{
}

/// A picture is encoded as a PNG of its size, four bytes a pixel and row by row, if it holds
/// exactly that many.
pub proof fn law_a_png_frame_matches_its_pixels(
    bitmap: &PanelBitmap,
    frame: Result<PngFrame, AppError>,
)
    requires
        call_ensures(png_frame, (bitmap,), frame),
    ensures
        frame is Ok <==> bitmap.width >= 0 && bitmap.height >= 0 && bitmap.width <= 1_073_741_823
            && bitmap.width * 4 * bitmap.height == bitmap.pixels@.len(),
        frame is Ok ==> frame->Ok_0.width == bitmap.width && frame->Ok_0.height == bitmap.height
            && frame->Ok_0.stride == 4 * bitmap.width,
{
}

/// A registered format has a number of 16 bits that is not zero.
pub proof fn law_formats_have_short_numbers(id: u32, format: Result<u16, u32>)
    requires
        call_ensures(registered_format, (id,), format),
    ensures
        format is Ok <==> 1 <= id <= 65_535,
        format is Ok ==> format->Ok_0 == id,
        format is Err ==> format->Err_0 == id,
{
}

/// Whether a bit of a set of media is there.
pub open spec fn has_medium(tymed: u32, bit: u32) -> bool {
    tymed & bit != 0u32
}

/// Which request each offer answers: its own format, in memory but for the bitmap handle and the
/// contents of the file, which also go as a stream; of the whole, but the contents of the first
/// file. Every such request is answered, and requests for a device or another aspect never are.
pub proof fn law_requests_are_answered_by_format(
    formats: &ClipboardFormats,
    request: &FormatRequest,
    found: Option<ClipboardOffer>,
)
    requires
        call_ensures(match_offer, (formats, request), found),
        ({
            let (a, b, c, d) = (
                formats.png,
                formats.file_descriptor,
                formats.file_contents,
                formats.drop_effect,
            );
            &&& a != b && a != c && a != d && b != c && b != d && c != d
            &&& a != 2 && a != 8 && a != 17
            &&& b != 2 && b != 8 && b != 17
            &&& c != 2 && c != 8 && c != 17
            &&& d != 2 && d != 8 && d != 17
        }),
    ensures
        ({
            let content = !request.has_target_device && (request.aspect == 0 || request.aspect
                == 1);
            let whole = content && request.lindex == -1;
            let memory = has_medium(request.tymed, 1);
            let format = request.format;
            &&& found == Some(ClipboardOffer::Png) <==> whole && memory && format == formats.png
            &&& found == Some(ClipboardOffer::FileDescriptor) <==> whole && memory && format
                == formats.file_descriptor
            &&& found == Some(ClipboardOffer::FileContents) <==> content && (request.lindex == 0
                || request.lindex == -1) && has_medium(request.tymed, 5) && format
                == formats.file_contents
            &&& found == Some(ClipboardOffer::Dibv5) <==> whole && memory && format == 17
            &&& found == Some(ClipboardOffer::Dib) <==> whole && memory && format == 8
            &&& found == Some(ClipboardOffer::Bitmap) <==> whole && has_medium(request.tymed, 16)
                && format == 2
            &&& found == Some(ClipboardOffer::DropEffect) <==> whole && memory && format
                == formats.drop_effect
        }),
{
    let table = offer_table(*formats);
    assert(table.len() == 7);
    assert(table[0].format == formats.png && table[1].format == formats.file_descriptor);
    assert(table[2].format == formats.file_contents && table[3].format == 17);
    assert(table[4].format == 8 && table[5].format == 2 && table[6].format == formats.drop_effect);
    if found is Some {
        let i = choose|i: int|
            #![trigger table[i]]
            0 <= i < table.len() && row_answers(table[i], *request) && table[i].offer == found->0
                && forall|j: int| 0 <= j < i ==> !row_answers(#[trigger] table[j], *request);
        assert(row_answers(table[i], *request));
    }
}

/// The contents of the file go as a stream to whoever takes one, a bitmap handle as such, and
/// everything else as memory, each with its own bytes.
pub proof fn law_answers_go_on_their_medium(
    formats: &ClipboardFormats,
    request: &FormatRequest,
    found: Option<ClipboardOffer>,
    medium: Option<Medium>,
)
    requires
        call_ensures(match_offer, (formats, request), found),
        call_ensures(medium_for, (formats, request), medium),
    ensures
        medium is Some <==> found is Some,
        found is Some ==> medium->0 == (match found->0 {
            ClipboardOffer::Dibv5 => Medium::Memory(Payload::Dibv5),
            ClipboardOffer::Dib => Medium::Memory(Payload::Dib),
            ClipboardOffer::Bitmap => Medium::GdiBitmap,
            ClipboardOffer::Png => Medium::Memory(Payload::Png),
            ClipboardOffer::FileDescriptor => Medium::Memory(Payload::Descriptor),
            ClipboardOffer::FileContents => if has_medium(request.tymed, 4) {
                Medium::Stream(Payload::Png)
            } else {
                Medium::Memory(Payload::Png)
            },
            ClipboardOffer::DropEffect => Medium::Memory(Payload::DropEffect),
        }),
{
    let table = offer_table(*formats);
    if found is Some {
        let i = choose|i: int|
            #![trigger table[i]]
            0 <= i < table.len() && row_answers(table[i], *request) && table[i].offer == found->0
                && forall|j: int| 0 <= j < i ==> !row_answers(#[trigger] table[j], *request);
        assert(row_answers(table[i], *request));
    }
    if medium is Some {
        let offer = choose|offer: ClipboardOffer| #[trigger]
            answers(table, *request, offer) && medium->0 == medium_of(offer, request.tymed);
        let k = choose|k: int|
            #![trigger table[k]]
            0 <= k < table.len() && row_answers(table[k], *request) && table[k].offer == offer
                && forall|j: int| 0 <= j < k ==> !row_answers(#[trigger] table[j], *request);
        assert(row_answers(table[k], *request));
        assert(found is Some);
    }
}

/// Every payload is handed out as it was made, and the drop effect says copy.
pub proof fn law_payloads_are_what_was_made(
    data: &SnapshotData,
    dibv5: Vec<u8>,
    dib: Vec<u8>,
    png: Vec<u8>,
    descriptor: Vec<u8>,
    effect: Vec<u8>,
)
    requires
        call_ensures(SnapshotData::bytes_of, (data, Payload::Dibv5), dibv5),
        call_ensures(SnapshotData::bytes_of, (data, Payload::Dib), dib),
        call_ensures(SnapshotData::bytes_of, (data, Payload::Png), png),
        call_ensures(SnapshotData::bytes_of, (data, Payload::Descriptor), descriptor),
        call_ensures(SnapshotData::bytes_of, (data, Payload::DropEffect), effect),
    ensures
        dibv5@ == data.dibv5@,
        dib@ == data.dib@,
        png@ == data.png@,
        descriptor@ == data.descriptor@,
        effect@.len() == 4 && number_at(effect@, 0) == 1,
{
}

/// A picture is copied in all its forms or not at all: it must hold four bytes for each of its
/// pixels, and neither it nor its PNG may be larger than the formats count.
pub proof fn law_a_picture_is_copied_whole(
    bitmap: &PanelBitmap,
    png: Vec<u8>,
    data: Result<SnapshotData, AppError>,
    checked: Result<(), AppError>,
    dibv5: Result<Vec<u8>, AppError>,
    dib: Result<Vec<u8>, AppError>,
    png_len: u32,
    descriptor: Result<Vec<u8>, AppError>,
)
    requires
        call_ensures(copy_panel_bitmap, (bitmap, png), data),
        call_ensures(check_panel_bitmap, (bitmap,), checked),
        bitmap.height > i32::MIN,
        call_ensures(dibv5_bytes, (bitmap,), dibv5),
        call_ensures(dib_bytes, (bitmap,), dib),
        png@.len() <= u32::MAX ==> png_len == png@.len(),
        call_ensures(file_group_descriptor, (png_len,), descriptor),
        bitmap.pixels@.len() <= usize::MAX,
    ensures
        checked is Ok <==> bitmap.width >= 0 && bitmap.height >= 0 && bitmap.pixels@.len() == 4 * (
        bitmap.width * bitmap.height),
        data is Ok <==> checked is Ok && bitmap.pixels@.len() <= 4_294_967_295 && png@.len()
            <= 4_294_967_295,
        data is Ok ==> {
            &&& data->Ok_0.dibv5@ == dibv5->Ok_0@
            &&& data->Ok_0.dib@ == dib->Ok_0@
            &&& data->Ok_0.png@ == png@
            &&& data->Ok_0.descriptor@ == descriptor->Ok_0@
        },
{
    if bitmap.width >= 0 && bitmap.height >= 0 {
        assert(bitmap.width * bitmap.height >= 0) by (nonlinear_arith)
            requires
                bitmap.width >= 0,
                bitmap.height >= 0,
        ;
    }
}

/// A picture that cannot be encoded, described or copied is refused with the first thing that is
/// wrong with it.
pub proof fn law_refusals_say_what_is_wrong(
    bitmap: &PanelBitmap,
    frame: Result<PngFrame, AppError>,
    encoded: Result<Vec<u8>, AppError>,
    classic: Result<Vec<u8>, AppError>,
    name: &str,
    described: Result<Vec<u8>, AppError>,
    checked: Result<(), AppError>,
    png: Vec<u8>,
    copied: Result<SnapshotData, AppError>,
)
    requires
        bitmap.height > i32::MIN,
        call_ensures(png_frame, (bitmap,), frame),
        call_ensures(dibv5_bytes, (bitmap,), encoded),
        call_ensures(dib_bytes, (bitmap,), classic),
        call_ensures(describe_file, (name, 0), described),
        call_ensures(check_panel_bitmap, (bitmap,), checked),
        call_ensures(copy_panel_bitmap, (bitmap, png), copied),
    ensures
        frame is Err ==> frame->Err_0 is Render && frame->Err_0.reason() == (if bitmap.width < 0 {
            "截图宽度无效"@
        } else if bitmap.height < 0 {
            "截图高度无效"@
        } else if bitmap.width > 1_073_741_823 {
            "截图行宽溢出"@
        } else {
            "截图像素与尺寸不一致"@
        }),
        encoded is Err ==> encoded->Err_0 is Render && encoded->Err_0.reason()
            == "位图数据大小溢出"@,
        classic is Err ==> classic->Err_0 is Render && classic->Err_0.reason()
            == "位图数据大小溢出"@,
        described is Err ==> described->Err_0 is Render && described->Err_0.reason()
            == "截图文件名过长"@,
        checked is Err ==> checked->Err_0 is Render && checked->Err_0.reason()
            == "面板截图尺寸与像素缓冲不一致"@,
        copied is Err ==> copied->Err_0 is Render && copied->Err_0.reason() == (if checked is Err {
            checked->Err_0.reason()
        } else if encoded is Err {
            encoded->Err_0.reason()
        } else {
            "PNG 过大"@
        }),
{
}

/// The formats are listed in the order in which they are preferred, and each is answered by its own
/// offer.
pub proof fn law_formats_are_listed_by_preference(formats: &ClipboardFormats, rows: Vec<OfferRow>)
    requires
        call_ensures(offers, (formats,), rows),
    ensures
        rows@.len() == 7,
        rows@[0].format == formats.png && rows@[0].offer is Png,
        rows@[1].format == formats.file_descriptor && rows@[1].offer is FileDescriptor,
        rows@[2].format == formats.file_contents && rows@[2].offer is FileContents,
        rows@[3].format == 17 && rows@[3].offer is Dibv5,
        rows@[4].format == 8 && rows@[4].offer is Dib,
        rows@[5].format == 2 && rows@[5].offer is Bitmap,
        rows@[6].format == formats.drop_effect && rows@[6].offer is DropEffect,
        forall|i: int|
            #![trigger rows@[i]]
            0 <= i < 7 ==> rows@[i].lindex == (if i == 2 {
                0int
            } else {
                -1
            }) && rows@[i].tymed == (if i == 2 {
                5int
            } else if i == 5 {
                16
            } else {
                1
            }),
{
}

} // verus!
