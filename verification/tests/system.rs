use codex_quota::error::AppError;
use codex_quota::monitor::{monitor_device, monitor_for_device};
use codex_quota::system::{
    assemble_icon, autostart_value, is_primary_instance, pick_entry, read_u16, registry_string,
    wide, AutostartJob, AutostartStep, IconEntry, IdentityJob, IdentityStep,
};

fn group_directory(entries: &[(u8, u8, u16)]) -> Vec<u8> {
    let mut bytes = vec![0, 0, 1, 0];
    bytes.extend_from_slice(&u16::try_from(entries.len()).unwrap().to_le_bytes());
    for (width, height, image_id) in entries {
        bytes.push(*width);
        bytes.push(*height);
        bytes.push(0);
        bytes.push(0);
        bytes.extend_from_slice(&1_u16.to_le_bytes());
        bytes.extend_from_slice(&32_u16.to_le_bytes());
        bytes.extend_from_slice(&100_u32.to_le_bytes());
        bytes.extend_from_slice(&image_id.to_le_bytes());
    }
    bytes
}

#[test]
fn the_entry_closest_to_the_notification_icon_size_wins() {
    let directory = group_directory(&[(16, 16, 1), (32, 32, 2), (48, 48, 3), (0, 0, 4)]);

    assert_eq!(pick_entry(&directory).map(|entry| entry.image_id), Some(2));

    let without_32 = group_directory(&[(16, 16, 1), (64, 64, 2)]);
    assert_eq!(pick_entry(&without_32).map(|entry| entry.image_id), Some(1));
    let large = group_directory(&[(48, 48, 1), (0, 0, 2)]);
    assert_eq!(pick_entry(&large).map(|entry| entry.image_id), Some(1));
}

#[test]
fn a_width_of_zero_stands_for_256_pixels() {
    let picked = |entries: &[(u8, u8, u16)]| {
        pick_entry(&group_directory(entries)).map(|entry| entry.image_id)
    };
    assert_eq!(picked(&[(0, 0, 1), (255, 255, 2)]), Some(2));
    assert_eq!(picked(&[(255, 255, 1), (0, 0, 2)]), Some(1));
    let directory = [
        0, 0, 1, 0, 2, 0, 0, 0, 0, 0, 1, 0, 32, 0, 100, 0, 0, 0, 1, 0, 255, 255, 0, 0, 1, 0, 32,
        0, 100, 0, 0, 0, 2, 0,
    ];
    assert_eq!(pick_entry(&directory).map(|entry| entry.image_id), Some(2));
}

#[test]
fn a_truncated_directory_yields_no_entry() {
    let mut directory = group_directory(&[(32, 32, 1)]);
    directory.truncate(directory.len() - 2);

    assert_eq!(pick_entry(&directory), None);
}

#[test]
fn assembling_puts_the_image_right_after_a_single_entry_header() {
    let entry = IconEntry {
        width: 32,
        height: 32,
        color_count: 0,
        planes: 1,
        bit_count: 32,
        image_id: 7,
    };
    let icon = assemble_icon(entry, &[0xAA; 40]);

    assert_eq!(&icon[..6], &[0, 0, 1, 0, 1, 0]);
    assert_eq!((icon[6], icon[7]), (32, 32));
    assert_eq!(u16::from_le_bytes([icon[12], icon[13]]), 32);
    assert_eq!(
        u32::from_le_bytes([icon[14], icon[15], icon[16], icon[17]]),
        40
    );
    assert_eq!(
        u32::from_le_bytes([icon[18], icon[19], icon[20], icon[21]]),
        22
    );
    assert_eq!(icon.len(), 22 + 40);
    assert!(icon[22..].iter().all(|byte| *byte == 0xAA));
}

#[test]
fn words_are_read_little_endian_and_only_where_they_are_whole() {
    assert_eq!(read_u16(&[1, 2, 3], 1), Some(0x0302));
    assert_eq!(read_u16(&[1, 2, 3], 2), None);
    assert_eq!(read_u16(&[1, 2, 3], usize::MAX), None);
}

#[test]
fn an_empty_directory_has_no_entry() {
    assert_eq!(pick_entry(&group_directory(&[])), None);
    assert_eq!(pick_entry(&[]), None);
}

#[test]
fn wide_strings_are_terminated() {
    assert_eq!(wide("a球"), vec![0x61, 0x7403, 0]);
    assert_eq!(wide(""), vec![0]);
    assert_eq!(registry_string("é"), vec![0xe9, 0, 0, 0]);
    assert_eq!(autostart_value("C"), vec![b'"', 0, b'C', 0, b'"', 0, 0, 0]);
    assert_eq!(wide("😀"), vec![0xd83d, 0xde00, 0]);
}

#[test]
fn the_second_instance_is_told_by_its_error() {
    assert!(is_primary_instance(0));
    assert!(!is_primary_instance(183));
}

fn failure(outcome: Result<(), AppError>) -> String {
    outcome.unwrap_err().message().to_owned()
}

#[test]
fn registering_the_start_reports_the_step_that_failed() {
    let mut open_fails = AutostartJob::new(true);
    open_fails.report(5);
    assert!(failure(open_fails.set_autostart()).contains('5'));

    let mut write_fails = AutostartJob::new(true);
    write_fails.report(0);
    write_fails.report(7);
    write_fails.report(0);
    assert!(failure(write_fails.set_autostart()).contains('7'));

    let mut works = AutostartJob::new(true);
    works.report(0);
    works.report(0);
    works.report(0);
    assert!(works.set_autostart().is_ok());
    assert_eq!(works.step, AutostartStep::Done);
}

#[test]
fn unregistering_a_start_that_is_not_there_succeeds() {
    let mut job = AutostartJob::new(false);
    job.report(0);
    job.report(2);
    job.report(0);
    assert!(job.set_autostart().is_ok());

    let mut denied = AutostartJob::new(false);
    denied.report(0);
    denied.report(5);
    denied.report(0);
    assert!(denied.set_autostart().is_err());
}

#[test]
fn the_display_name_is_written_before_the_icon() {
    let mut job = IdentityJob::new(true);
    while job.step != IdentityStep::Done {
        job.report(0);
    }
    assert!(job.write_display_name().is_ok());

    let mut refused = IdentityJob::new(false);
    refused.report(5);
    while refused.step != IdentityStep::Done {
        refused.report(0);
    }
    assert!(refused.write_display_name().is_err());
}

#[test]
fn a_monitor_is_found_by_its_name_whatever_its_case() {
    let mut field: Vec<u16> = "\\\\.\\DISPLAY2".encode_utf16().collect();
    field.resize(32, 0);
    assert_eq!(monitor_device(&field), "\\\\.\\DISPLAY2");
    assert_eq!(monitor_device(&[0; 32]), "");

    let devices = vec!["\\\\.\\DISPLAY1".to_owned(), "\\\\.\\DISPLAY2".to_owned()];
    assert_eq!(monitor_for_device(&devices, "\\\\.\\display2"), Some(1));
    assert_eq!(monitor_for_device(&devices, "\\\\.\\display3"), None);
    assert_eq!(monitor_for_device(&[String::new()], ""), None);
}
