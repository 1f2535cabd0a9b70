use codex_quota::bytes::{push_i32, push_slice, push_u16, push_u32, push_zeros, read_u32};
use codex_quota::clipboard::{
    match_offer, medium_for, offers, ClipboardFormats, ClipboardOffer, FormatRequest, Medium,
    Payload, SnapshotData, CF_BITMAP, CF_DIB, TYMED_GDI, TYMED_HGLOBAL, TYMED_ISTREAM,
};
use codex_quota::config::{AppConfigV1, ColorStyle, UnitStyle};
use codex_quota::error::AppError;
use codex_quota::fixed::{clamp_i32, clamp_i64, round_div, saturate_i32, saturating_diff};
use codex_quota::text::{
    chars_of, decimal_string, decode_utf16_lossy, encode_utf16, eq_ignore_ascii_case,
    push_hundredths, push_rounded, push_two_digits, round_half_even, same,
};
use codex_quota::time::{file_time, filetime_ticks, Duration, FileTime, Instant, SystemTime};

const FORMATS: ClipboardFormats =
    ClipboardFormats { png: 100, file_descriptor: 101, file_contents: 102, drop_effect: 103 };

fn ask(format: u16, tymed: u32, lindex: i32) -> FormatRequest {
    FormatRequest { format, has_target_device: false, aspect: 1, lindex, tymed }
}

#[test]
fn every_listed_format_is_answered() {
    let rows = offers(&FORMATS);
    assert_eq!(rows.len(), 7);
    for row in rows {
        let found = match_offer(&FORMATS, &ask(row.format, row.tymed, row.lindex));
        assert_eq!(found, Some(row.offer));
    }
}

#[test]
fn what_is_not_offered_is_refused() {
    assert_eq!(match_offer(&FORMATS, &ask(99, TYMED_HGLOBAL, -1)), None);
    assert_eq!(match_offer(&FORMATS, &ask(CF_DIB, TYMED_ISTREAM, -1)), None);
    assert_eq!(match_offer(&FORMATS, &ask(CF_DIB, TYMED_HGLOBAL, 0)), None);
    assert_eq!(match_offer(&FORMATS, &ask(102, TYMED_ISTREAM, 1)), None);
    assert_eq!(
        match_offer(&FORMATS, &ask(102, TYMED_ISTREAM, -1)),
        Some(ClipboardOffer::FileContents)
    );
    let device = FormatRequest { has_target_device: true, ..ask(CF_DIB, TYMED_HGLOBAL, -1) };
    assert_eq!(match_offer(&FORMATS, &device), None);
    let icon = FormatRequest { aspect: 4, ..ask(CF_DIB, TYMED_HGLOBAL, -1) };
    assert_eq!(match_offer(&FORMATS, &icon), None);
    let unset = FormatRequest { aspect: 0, ..ask(CF_DIB, TYMED_HGLOBAL, -1) };
    assert_eq!(match_offer(&FORMATS, &unset), Some(ClipboardOffer::Dib));
}

#[test]
fn file_contents_go_as_a_stream_where_one_is_taken() {
    let contents = |tymed| medium_for(&FORMATS, &ask(102, tymed, 0));
    assert_eq!(contents(TYMED_ISTREAM), Some(Medium::Stream(Payload::Png)));
    assert_eq!(contents(TYMED_ISTREAM | TYMED_HGLOBAL), Some(Medium::Stream(Payload::Png)));
    assert_eq!(contents(TYMED_HGLOBAL), Some(Medium::Memory(Payload::Png)));
    assert_eq!(contents(TYMED_GDI), None);
    let bitmap = medium_for(&FORMATS, &ask(CF_BITMAP, TYMED_GDI, -1));
    assert_eq!(bitmap, Some(Medium::GdiBitmap));
    let descriptor = medium_for(&FORMATS, &ask(101, TYMED_HGLOBAL, -1));
    assert_eq!(descriptor, Some(Medium::Memory(Payload::Descriptor)));
}

#[test]
fn payloads_hand_out_their_own_bytes() {
    let data = SnapshotData { dibv5: vec![1], dib: vec![2], png: vec![3], descriptor: vec![4] };
    assert_eq!(data.bytes_of(Payload::Dibv5), vec![1]);
    assert_eq!(data.bytes_of(Payload::Dib), vec![2]);
    assert_eq!(data.bytes_of(Payload::Png), vec![3]);
    assert_eq!(data.bytes_of(Payload::Descriptor), vec![4]);
    assert_eq!(data.bytes_of(Payload::DropEffect), vec![1, 0, 0, 0]);
}

#[test]
fn bytes_are_written_low_end_first() {
    let mut out = Vec::new();
    push_u16(&mut out, 0x0102);
    push_u32(&mut out, 0x0304_0506);
    push_i32(&mut out, -2);
    push_zeros(&mut out, 2);
    push_slice(&mut out, &[7, 8]);
    assert_eq!(out, vec![2, 1, 6, 5, 4, 3, 0xfe, 0xff, 0xff, 0xff, 0, 0, 7, 8]);
    assert_eq!(read_u32(&out, 2), 0x0304_0506);
}

#[test]
fn settings_have_their_defaults_and_keep_intervals_within_bounds() {
    let mut config = AppConfigV1::default();
    assert_eq!(config.quota_refresh_interval(), Duration::from_secs(300));
    assert_eq!(config.follow_codex_check_interval(), Duration::from_secs(2));
    assert_eq!((config.token_unit, config.color_style), (UnitStyle::Zh, ColorStyle::Soft));
    for (set, kept) in [(1, 60), (60, 60), (120, 120), (3600, 3600), (7200, 3600)] {
        config.set_quota_refresh_interval(Duration::from_secs(set));
        assert_eq!(config.quota_refresh_interval(), Duration::from_secs(kept));
        config.quota_refresh_interval_secs = set;
        assert_eq!(config.quota_refresh_interval(), Duration::from_secs(kept));
    }
    for (set, kept) in [(0, 1), (1, 1), (60, 60), (61, 60)] {
        config.follow_codex_check_interval_secs = set;
        assert_eq!(config.follow_codex_check_interval(), Duration::from_secs(kept));
    }
}

#[test]
fn failures_keep_their_reason() {
    assert_eq!(AppError::render("a").message(), "a");
    assert_eq!(AppError::windows("b").message(), "b");
    assert_eq!(AppError::Config("c".to_owned()).message(), "c");
    assert_ne!(AppError::render("a"), AppError::windows("a"));
}

#[test]
fn spans_and_clocks_never_run_backwards() {
    let early = Instant { nanos: 5 };
    let late = Instant { nanos: 9 };
    assert_eq!(late.saturating_duration_since(early), Duration::from_nanos(4));
    assert_eq!(early.saturating_duration_since(late), Duration::from_nanos(0));
    assert_eq!(early.checked_add(Duration::from_nanos(4)), Some(late));
    assert_eq!(early.checked_sub(Duration::from_nanos(6)), None);
    let span = Duration::from_millis(1_500);
    assert_eq!((span.as_secs(), span.as_millis()), (1, 1_500));
    assert_eq!(span.saturating_mul(2), Duration::from_secs(3));
    assert_eq!(span.saturating_sub(Duration::from_secs(2)), Duration::from_nanos(0));
    assert_eq!(Duration::from_micros(1_000), Duration::from_millis(1));
}

#[test]
fn wall_times_compare_in_both_directions() {
    let noon = SystemTime::from_unix_secs(43_200);
    let one = SystemTime::from_unix_secs(46_800);
    assert_eq!(one.duration_since(noon), Ok(Duration::from_secs(3_600)));
    assert_eq!(noon.duration_since(one), Err(Duration::from_secs(3_600)));
    assert_eq!(noon.checked_add(Duration::from_secs(3_600)), Some(one));
    assert_eq!(one.checked_sub(Duration::from_secs(3_600)), Some(noon));
}

#[test]
fn file_times_count_from_their_own_epoch() {
    let epoch = file_time(SystemTime { nanos: 0 }).unwrap();
    assert_eq!(filetime_ticks(epoch), 116_444_736_000_000_000);
    let later = file_time(SystemTime { nanos: 1_000_000_150 }).unwrap();
    assert_eq!(filetime_ticks(later), 116_444_736_010_000_001);
    assert_eq!(file_time(SystemTime { nanos: -1 }), None);
    assert_eq!(filetime_ticks(FileTime { low: 2, high: 1 }), 0x1_0000_0002);
}

#[test]
fn numbers_are_rounded_as_they_are_printed() {
    assert_eq!(round_half_even(25, 10), 2);
    assert_eq!(round_half_even(35, 10), 4);
    assert_eq!(round_half_even(26, 10), 3);
    assert_eq!(round_div(5, 10), 1);
    assert_eq!(round_div(-5, 10), -1);
    assert_eq!(round_div(4, 10), 0);
    assert_eq!(decimal_string(0), "0");
    assert_eq!(decimal_string(12_000), "12000");
    let mut shown = String::new();
    push_rounded(&mut shown, -1_600_000, 1_000_000);
    shown.push(' ');
    push_hundredths(&mut shown, 1_241);
    shown.push(' ');
    push_two_digits(&mut shown, 7);
    assert_eq!(shown, "-2 12.41 07");
}

#[test]
fn values_are_kept_within_bounds() {
    assert_eq!(clamp_i64(-3, 0, 5), 0);
    assert_eq!(clamp_i64(9, 0, 5), 5);
    assert_eq!(clamp_i32(3, 0, 5), 3);
    assert_eq!(saturating_diff(i32::MIN, 1), i32::MIN);
    assert_eq!(saturating_diff(i32::MAX, -1), i32::MAX);
    assert_eq!(saturating_diff(3, 5), -2);
    assert_eq!(saturate_i32(1 << 40), i32::MAX);
    assert_eq!(saturate_i32(-(1 << 40)), i32::MIN);
}

#[test]
fn texts_survive_wide_units() {
    for text in ["", "Codex 额度", "😀a", "\u{ffff}\u{10ffff}"] {
        let units = encode_utf16(text);
        assert_eq!(units, text.encode_utf16().collect::<Vec<u16>>());
        assert_eq!(decode_utf16_lossy(&units, 0, units.len()), text);
        assert_eq!(chars_of(text), text.chars().collect::<Vec<char>>());
    }
    let broken = [0x61, 0xd83d, 0x62, 0xde00];
    assert_eq!(decode_utf16_lossy(&broken, 0, 4), String::from_utf16_lossy(&broken));
    assert_eq!(decode_utf16_lossy(&broken, 2, 3), "b");
}

#[test]
fn letters_compare_without_their_case() {
    assert!(eq_ignore_ascii_case("ChatGPT.exe", "chatgpt.EXE"));
    assert!(!eq_ignore_ascii_case("É", "é"));
    assert!(!eq_ignore_ascii_case("a", "ab"));
    assert!(same("本周", "本周"));
    assert!(!same("本周", "本月"));
}
