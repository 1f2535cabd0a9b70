//! What is written to the system: the autostart entry, the application's identity, and its
//! icon.
use vstd::prelude::*;

use crate::bytes;
use crate::bytes::{push_slice, push_u16, push_u32};
use crate::error::AppError;
use crate::text;
use crate::text::{encode_utf16, push_decimal, push_wide};

verus! {

/// A call that succeeded.
pub const ERROR_SUCCESS: u32 = 0;

/// The value to delete was not there.
pub const ERROR_FILE_NOT_FOUND: u32 = 2;

/// The mutex was there already.
pub const ERROR_ALREADY_EXISTS: u32 = 183;

/// Whether creating the named mutex made this the first instance.
pub fn is_primary_instance(last_error: u32) -> (primary: bool)
    ensures
        primary == (last_error != ERROR_ALREADY_EXISTS),
{
    last_error != ERROR_ALREADY_EXISTS
}

/// A text as a wide string with its terminating zero.
pub fn wide(value: &str) -> (units: Vec<u16>)
    ensures
        units@ == text::utf16(value@).push(0),
{
    let mut units = encode_utf16(value);
    units.push(0);
    units
}

/// A text as a registry string value.
pub fn registry_string(value: &str) -> (data: Vec<u8>)
    ensures
        data@ == text::wide_bytes(text::utf16(value@).push(0)),
{
    let mut data: Vec<u8> = Vec::new();
    push_wide(&mut data, wide(value).as_slice());
    assert(data@ =~= text::wide_bytes(text::utf16(value@).push(0)));
    data
}

/// The command that the system runs at sign-in: the program's path in quotes.
pub open spec fn autostart_command(executable: Seq<char>) -> Seq<char> {
    "\""@ + executable + "\""@
}

/// The autostart entry's registry value.
pub fn autostart_value(executable: &str) -> (data: Vec<u8>)
    ensures
        data@ == text::wide_bytes(text::utf16(autostart_command(executable@)).push(0)),
{
    let mut command = "\"".to_owned();
    command.append(executable);
    command.append("\"");
    registry_string(command.as_str())
}

/// A message that ends in a status code.
pub open spec fn with_status(message: Seq<char>, status: u32) -> Seq<char> {
    message + text::decimal(status as nat)
}

/// A failed call, with its status code.
pub fn status_error(message: &str, status: u32) -> (error: AppError)
    ensures
        error.is_windows(with_status(message@, status)),
{
    let mut reason = message.to_owned();
    push_decimal(&mut reason, status as u128);
    AppError::Windows(reason)
}

/// Switching autostart on or off, one registry call at a time.
#[derive(Clone, Copy, Debug, PartialEq, Eq, Structural)]
pub enum AutostartStep {
    OpenKey,
    SetValue,
    DeleteValue,
    CloseKey,
    Done,
}

#[derive(Clone, Copy, Debug, PartialEq, Eq, Structural)]
pub struct AutostartJob {
    pub enabled: bool,
    pub step: AutostartStep,
    pub open_status: u32,
    pub write_status: u32,
}

impl AutostartJob {
    pub open spec fn started(enabled: bool) -> AutostartJob {
        AutostartJob {
            enabled,
            step: AutostartStep::OpenKey,
            open_status: ERROR_SUCCESS,
            write_status: ERROR_SUCCESS,
        }
    }

    pub fn new(enabled: bool) -> (job: AutostartJob)
        ensures
            job == AutostartJob::started(enabled),
    {
        AutostartJob {
            enabled,
            step: AutostartStep::OpenKey,
            open_status: ERROR_SUCCESS,
            write_status: ERROR_SUCCESS,
        }
    }

    /// The job after its current step ended with `status`.
    pub open spec fn after(self, status: u32) -> AutostartJob {
        match self.step {
            AutostartStep::OpenKey => AutostartJob {
                step: if status != ERROR_SUCCESS {
                    AutostartStep::Done
                } else if self.enabled {
                    AutostartStep::SetValue
                } else {
                    AutostartStep::DeleteValue
                },
                open_status: status,
                ..self
            },
            AutostartStep::SetValue | AutostartStep::DeleteValue => AutostartJob {
                step: AutostartStep::CloseKey,
                write_status: status,
                ..self
            },
            AutostartStep::CloseKey | AutostartStep::Done => AutostartJob {
                step: AutostartStep::Done,
                ..self
            },
        }
    }

    pub fn report(&mut self, status: u32)
        ensures
            *final(self) == old(self).after(status),
    {
        match self.step {
            AutostartStep::OpenKey => {
                self.open_status = status;
                self.step = if status != ERROR_SUCCESS {
                    AutostartStep::Done
                } else if self.enabled {
                    AutostartStep::SetValue
                } else {
                    AutostartStep::DeleteValue
                };
            },
            AutostartStep::SetValue | AutostartStep::DeleteValue => {
                self.write_status = status;
                self.step = AutostartStep::CloseKey;
            },
            AutostartStep::CloseKey | AutostartStep::Done => {
                self.step = AutostartStep::Done;
            },
        }
    }

    /// A write failed for good: switching off what was never on does not count.
    pub open spec fn write_failed(self) -> bool {
        self.write_status != ERROR_SUCCESS && (self.enabled || self.write_status
            != ERROR_FILE_NOT_FOUND)
    }

    /// How the job ended.
    pub fn set_autostart(&self) -> (outcome: Result<(), AppError>)
        ensures
            outcome is Ok <==> self.open_status == ERROR_SUCCESS && !self.write_failed(),
            self.open_status != ERROR_SUCCESS ==> outcome->Err_0.is_windows(
                with_status("无法打开开机启动注册表项："@, self.open_status),
            ),
            self.open_status == ERROR_SUCCESS && self.write_failed()
                ==> outcome->Err_0.is_windows(
                with_status("无法更新开机启动设置："@, self.write_status),
            ),
    {
        if self.open_status != ERROR_SUCCESS {
            return Err(status_error("无法打开开机启动注册表项：", self.open_status));
        }
        if self.write_status != ERROR_SUCCESS && (self.enabled || self.write_status
            != ERROR_FILE_NOT_FOUND) {
            return Err(status_error("无法更新开机启动设置：", self.write_status));
        }
        Ok(())
    }
}

/// A key that was opened is closed again whatever the write returned, the write is the one that
/// was asked for, and what it returned decides.
pub proof fn law_autostart_closes_what_it_opens(enabled: bool, write: u32, close: u32)
    ensures
        ({
            let opened = AutostartJob::started(enabled).after(ERROR_SUCCESS);
            let written = opened.after(write);
            let closed = written.after(close);
            &&& opened.step == (if enabled {
                AutostartStep::SetValue
            } else {
                AutostartStep::DeleteValue
            })
            &&& written.step == AutostartStep::CloseKey
            &&& closed.step == AutostartStep::Done
            &&& closed.write_status == write
            &&& closed.open_status == ERROR_SUCCESS
        }),
{
}

/// Registering the display name and icon of notifications, one registry call at a time.
#[derive(Clone, Copy, Debug, PartialEq, Eq, Structural)]
pub enum IdentityStep {
    CreateKey,
    WriteName,
    WriteIcon,
    CloseKey,
    Done,
}

#[derive(Clone, Copy, Debug, PartialEq, Eq, Structural)]
pub struct IdentityJob {
    pub has_icon: bool,
    pub step: IdentityStep,
    pub create_status: u32,
    pub write_status: u32,
}

impl IdentityJob {
    pub open spec fn started(has_icon: bool) -> IdentityJob {
        IdentityJob {
            has_icon,
            step: IdentityStep::CreateKey,
            create_status: ERROR_SUCCESS,
            write_status: ERROR_SUCCESS,
        }
    }

    pub fn new(has_icon: bool) -> (job: IdentityJob)
        ensures
            job == IdentityJob::started(has_icon),
    {
        IdentityJob {
            has_icon,
            step: IdentityStep::CreateKey,
            create_status: ERROR_SUCCESS,
            write_status: ERROR_SUCCESS,
        }
    }

    /// The job after its current step ended with `status`. The icon is written only after the
    /// name was.
    pub open spec fn after(self, status: u32) -> IdentityJob {
        match self.step {
            IdentityStep::CreateKey => IdentityJob {
                step: if status != ERROR_SUCCESS {
                    IdentityStep::Done
                } else {
                    IdentityStep::WriteName
                },
                create_status: status,
                ..self
            },
            IdentityStep::WriteName => IdentityJob {
                step: if status == ERROR_SUCCESS && self.has_icon {
                    IdentityStep::WriteIcon
                } else {
                    IdentityStep::CloseKey
                },
                write_status: status,
                ..self
            },
            IdentityStep::WriteIcon => IdentityJob {
                step: IdentityStep::CloseKey,
                write_status: status,
                ..self
            },
            IdentityStep::CloseKey | IdentityStep::Done => IdentityJob {
                step: IdentityStep::Done,
                ..self
            },
        }
    }

    pub fn report(&mut self, status: u32)
        ensures
            *final(self) == old(self).after(status),
    {
        match self.step {
            IdentityStep::CreateKey => {
                self.create_status = status;
                self.step = if status != ERROR_SUCCESS {
                    IdentityStep::Done
                } else {
                    IdentityStep::WriteName
                };
            },
            IdentityStep::WriteName => {
                self.write_status = status;
                self.step = if status == ERROR_SUCCESS && self.has_icon {
                    IdentityStep::WriteIcon
                } else {
                    IdentityStep::CloseKey
                };
            },
            IdentityStep::WriteIcon => {
                self.write_status = status;
                self.step = IdentityStep::CloseKey;
            },
            IdentityStep::CloseKey | IdentityStep::Done => {
                self.step = IdentityStep::Done;
            },
        }
    }

    /// How the job ended.
    pub fn write_display_name(&self) -> (outcome: Result<(), AppError>)
        ensures
            outcome is Ok <==> self.create_status == ERROR_SUCCESS && self.write_status
                == ERROR_SUCCESS,
            self.create_status != ERROR_SUCCESS ==> outcome->Err_0.is_windows(
                with_status("无法创建应用标识项："@, self.create_status),
            ),
            self.create_status == ERROR_SUCCESS && self.write_status != ERROR_SUCCESS
                ==> outcome->Err_0.is_windows(
                with_status("无法写入应用显示名："@, self.write_status),
            ),
    {
        if self.create_status != ERROR_SUCCESS {
            return Err(status_error("无法创建应用标识项：", self.create_status));
        }
        if self.write_status != ERROR_SUCCESS {
            return Err(status_error("无法写入应用显示名：", self.write_status));
        }
        Ok(())
    }
}

/// A created key is closed on every path, the icon is written if and only if there is one and
/// the name went through, and the first failing write decides.
pub proof fn law_identity_closes_what_it_creates(
    has_icon: bool,
    name: u32,
    icon: u32,
    close: u32,
)
    ensures
        ({
            let created = IdentityJob::started(has_icon).after(ERROR_SUCCESS);
            let named = created.after(name);
            let written = if named.step == IdentityStep::WriteIcon {
                named.after(icon)
            } else {
                named
            };
            let closed = written.after(close);
            &&& created.step == IdentityStep::WriteName
            &&& named.step == IdentityStep::WriteIcon <==> has_icon && name == ERROR_SUCCESS
            &&& written.step == IdentityStep::CloseKey
            &&& closed.step == IdentityStep::Done
            &&& closed.create_status == ERROR_SUCCESS
            &&& closed.write_status == (if name != ERROR_SUCCESS {
                name
            } else if has_icon {
                icon
            } else {
                ERROR_SUCCESS
            })
        }),
{
}

/// One image of an icon group.
#[derive(Clone, Copy, Debug, PartialEq, Eq, Structural)]
pub struct IconEntry {
    pub width: u8,
    pub height: u8,
    pub color_count: u8,
    pub planes: u16,
    pub bit_count: u16,
    /// Resource that holds the image.
    pub image_id: u16,
}

/// The 16-bit field at `offset`, if it is there.
pub open spec fn field16(directory: Seq<u8>, offset: int) -> Option<u16> {
    if 0 <= offset && offset + 2 <= directory.len() {
        Some(bytes::read_le16(directory, offset) as u16)
    } else {
        None
    }
}

pub fn read_u16(bytes: &[u8], offset: usize) -> (value: Option<u16>)
    ensures
        value == field16(bytes@, offset as int),
{
    if bytes.len() < 2 || offset > bytes.len() - 2 {
        return None;
    }
    Some(bytes[offset] as u16 + 0x100 * (bytes[offset + 1] as u16))
}

/// Where an entry starts in the directory: six bytes of header, then 14 per entry.
pub open spec fn entry_offset(index: int) -> int {
    6 + index * 14
}

/// An entry of the directory, if all of it is there.
pub open spec fn entry_at(directory: Seq<u8>, index: int) -> Option<IconEntry> {
    let at = entry_offset(index);
    if at + 14 <= directory.len() {
        Some(
            IconEntry {
                width: directory[at],
                height: directory[at + 1],
                color_count: directory[at + 2],
                planes: bytes::read_le16(directory, at + 4) as u16,
                bit_count: bytes::read_le16(directory, at + 6) as u16,
                image_id: bytes::read_le16(directory, at + 12) as u16,
            },
        )
    } else {
        None
    }
}

fn read_entry(directory: &[u8], index: u16) -> (entry: Option<IconEntry>)
    ensures
        entry == entry_at(directory@, index as int),
{
    let at: usize = 6 + index as usize * 14;
    if directory.len() < at + 14 {
        return None;
    }
    match (
        read_u16(directory, at + 4),
        read_u16(directory, at + 6),
        read_u16(directory, at + 12),
    ) {
        (Some(planes), Some(bit_count), Some(image_id)) => Some(
            IconEntry {
                width: directory[at],
                height: directory[at + 1],
                color_count: directory[at + 2],
                planes,
                bit_count,
                image_id,
            },
        ),
        _ => None,
    }
}

/// How far an image is from the 32 pixels that a notification shows; a width of zero stands for
/// 256.
pub open spec fn icon_distance(entry: IconEntry) -> int {
    let width = if entry.width == 0 {
        256int
    } else {
        entry.width as int
    };
    if width > 32 {
        width - 32
    } else {
        32 - width
    }
}

fn distance_of(entry: &IconEntry) -> (distance: u32)
    ensures
        distance == icon_distance(*entry),
{
    let width: u32 = if entry.width == 0 {
        256
    } else {
        entry.width as u32
    };
    if width > 32 {
        width - 32
    } else {
        32 - width
    }
}

/// Whether the directory declares entries and holds all of them.
pub open spec fn directory_is_whole(directory: Seq<u8>) -> bool {
    &&& field16(directory, 4) is Some
    &&& field16(directory, 4)->0 > 0
    &&& entry_offset(field16(directory, 4)->0 as int) <= directory.len()
}

/// Whether `best` is the first of the first `count` entries that is closest to 32 pixels.
pub open spec fn is_closest(directory: Seq<u8>, count: int, best: int) -> bool {
    &&& 0 <= best < count
    &&& forall|j: int|
        0 <= j < count ==> icon_distance(entry_at(directory, best)->0) <= icon_distance(
            #[trigger] entry_at(directory, j)->0,
        )
    &&& forall|j: int|
        0 <= j < best ==> icon_distance(entry_at(directory, best)->0) < icon_distance(
            #[trigger] entry_at(directory, j)->0,
        )
}

/// The image closest to what a notification shows; none of an incomplete directory.
pub fn pick_entry(directory: &[u8]) -> (picked: Option<IconEntry>)
    ensures
        picked is Some <==> directory_is_whole(directory@),
        picked is Some ==> exists|best: int| #[trigger]
            is_closest(directory@, field16(directory@, 4)->0 as int, best) && picked == entry_at(
                directory@,
                best,
            ),
{
    let count: u16 = match read_u16(directory, 4) {
        Some(count) => count,
        None => return None,
    };
    let mut best: Option<IconEntry> = None;
    let ghost mut best_at: int = 0;
    let mut index: u16 = 0;
    while index < count
        invariant
            index <= count,
            field16(directory@, 4) == Some(count),
            index > 0 ==> entry_offset(index as int) <= directory.len(),
            best is None <==> index == 0,
            index > 0 ==> is_closest(directory@, index as int, best_at),
            index > 0 ==> entry_at(directory@, best_at) == best,
        decreases count - index,
    {
        let entry = match read_entry(directory, index) {
            Some(entry) => entry,
            None => {
                assert(entry_offset(index + 1) > directory.len());
                assert(entry_offset(count as int) >= entry_offset(index + 1));
                return None;
            },
        };
        let closer = match &best {
            Some(other) => distance_of(&entry) < distance_of(other),
            None => true,
        };
        if closer {
            best = Some(entry);
            proof {
                best_at = index as int;
            }
        }
        index = index + 1;
    }
    proof {
        if count > 0 {
            assert(is_closest(directory@, count as int, best_at));
        }
    }
    best
}

/// Bytes before the image in an icon file with a single image.
pub const IMAGE_OFFSET: u32 = 22;

/// An icon file with a single image: directory, one entry, image.
pub open spec fn icon_file(entry: IconEntry, image: Seq<u8>) -> Seq<u8> {
    bytes::le16(0) + bytes::le16(1) + bytes::le16(1) + seq![
        entry.width,
        entry.height,
        entry.color_count,
        0u8,
    ] + bytes::le16(entry.planes as int) + bytes::le16(entry.bit_count as int) + bytes::le32(
        if image.len() > u32::MAX {
            u32::MAX as int
        } else {
            image.len() as int
        },
    ) + bytes::le32(IMAGE_OFFSET as int) + image
}

pub fn assemble_icon(entry: IconEntry, image: &[u8]) -> (icon: Vec<u8>)
    ensures
        icon@ == icon_file(entry, image@),
{
    let mut icon: Vec<u8> = Vec::new();
    push_u16(&mut icon, 0);
    push_u16(&mut icon, 1);
    push_u16(&mut icon, 1);
    icon.push(entry.width);
    icon.push(entry.height);
    icon.push(entry.color_count);
    icon.push(0);
    push_u16(&mut icon, entry.planes);
    push_u16(&mut icon, entry.bit_count);
    let length: u32 = if image.len() > 0xffff_ffff {
        u32::MAX
    } else {
        image.len() as u32
    };
    push_u32(&mut icon, length);
    push_u32(&mut icon, IMAGE_OFFSET);
    push_slice(&mut icon, image);
    assert(icon@ =~= icon_file(entry, image@));
    icon
}

/// The image stands where the entry says, and all of it.
#[verifier::spinoff_prover]
#[verifier::rlimit(50)]
pub proof fn law_icon_image_follows_its_header(entry: IconEntry, image: Seq<u8>)
    requires
        image.len() <= u32::MAX,
    ensures
        icon_file(entry, image).len() == IMAGE_OFFSET + image.len(),
        icon_file(entry, image).skip(IMAGE_OFFSET as int) == image,
        bytes::read_le32(icon_file(entry, image), 14) == image.len(),
        bytes::read_le32(icon_file(entry, image), 18) == IMAGE_OFFSET,
{
    let icon = icon_file(entry, image);
    assert(icon.subrange(14, 18) =~= bytes::le32(image.len() as int));
    assert(icon.subrange(18, 22) =~= bytes::le32(IMAGE_OFFSET as int));
    bytes::lemma_field_reads_back(icon, 14, image.len() as int);
    bytes::lemma_field_reads_back(icon, 18, IMAGE_OFFSET as int);
    assert(icon.skip(IMAGE_OFFSET as int) =~= image);
}

/// This is the first instance unless the mutex was there already, which the system reports as 183.
pub proof fn law_the_first_instance_made_the_mutex(last_error: u32, primary: bool)
    requires
        call_ensures(is_primary_instance, (last_error,), primary),
    ensures
        primary <==> last_error != 183,
{
}

/// A registry string is the text's units, two bytes each with the lower one first, and a zero.
pub proof fn law_registry_strings_end_in_zero(
    value: &str,
    data: Vec<u8>,
    encoded: Vec<u16>,
    units: Vec<u16>,
    i: int,
)
    requires
        call_ensures(registry_string, (value,), data),
        call_ensures(encode_utf16, (value,), encoded),
        call_ensures(wide, (value,), units),
        0 <= i < encoded@.len(),
    ensures
        units@ == encoded@.push(0),
        data@.len() == 2 * encoded@.len() + 2,
        data@[2 * i] + 256 * data@[2 * i + 1] == encoded@[i],
        data@[data@.len() - 1] == 0,
        data@[data@.len() - 2] == 0,
{
    text::lemma_wide_bytes_len(units@);
    text::lemma_wide_byte_pairs(units@, i);
    text::lemma_wide_byte_pairs(units@, encoded@.len() as int);
}

/// The autostart entry runs the program by its path in quotes.
pub proof fn law_autostart_quotes_the_path(
    executable: &str,
    command: &str,
    data: Vec<u8>,
    expected: Vec<u8>,
)
    requires
        call_ensures(autostart_value, (executable,), data),
        command@ == seq!['"'] + executable@ + seq!['"'],
        call_ensures(registry_string, (command,), expected),
    ensures
        data@ == expected@,
{
    reveal_strlit("\"");
    assert("\""@ =~= seq!['"']);
}

/// Switching autostart opens the key, sets or deletes the value as asked, and closes the key; a key
/// that could not be opened ends it.
pub proof fn law_autostart_goes_step_by_step(job: &mut AutostartJob, status: u32)
    requires
        call_ensures(AutostartJob::report, (job, status), ()),
    ensures
        final(job).enabled == old(job).enabled,
        old(job).step is OpenKey ==> {
            &&& final(job).open_status == status
            &&& final(job).write_status == old(job).write_status
            &&& status != 0 ==> final(job).step is Done
            &&& status == 0 && old(job).enabled ==> final(job).step is SetValue
            &&& status == 0 && !old(job).enabled ==> final(job).step is DeleteValue
        },
        old(job).step is SetValue || old(job).step is DeleteValue ==> {
            &&& final(job).step is CloseKey
            &&& final(job).write_status == status
            &&& final(job).open_status == old(job).open_status
        },
        old(job).step is CloseKey || old(job).step is Done ==> {
            &&& final(job).step is Done
            &&& final(job).open_status == old(job).open_status
            &&& final(job).write_status == old(job).write_status
        },
{
}

/// Autostart was switched unless a call failed; that a value to delete was not there is no failure.
pub proof fn law_autostart_tolerates_a_missing_value(
    job: &AutostartJob,
    outcome: Result<(), AppError>,
)
    requires
        call_ensures(AutostartJob::set_autostart, (job,), outcome),
    ensures
        outcome is Ok <==> job.open_status == 0 && (job.write_status == 0 || (!job.enabled
            && job.write_status == 2)),
{
}

/// Registering the identity creates the key, writes the name, writes the icon where there is one
/// and the name went through, and closes the key.
pub proof fn law_identity_goes_step_by_step(job: &mut IdentityJob, status: u32)
    requires
        call_ensures(IdentityJob::report, (job, status), ()),
    ensures
        final(job).has_icon == old(job).has_icon,
        old(job).step is CreateKey ==> {
            &&& final(job).create_status == status
            &&& final(job).write_status == old(job).write_status
            &&& status != 0 ==> final(job).step is Done
            &&& status == 0 ==> final(job).step is WriteName
        },
        old(job).step is WriteName ==> {
            &&& final(job).write_status == status
            &&& final(job).create_status == old(job).create_status
            &&& final(job).step is WriteIcon <==> status == 0 && old(job).has_icon
            &&& final(job).step is CloseKey <==> status != 0 || !old(job).has_icon
        },
        old(job).step is WriteIcon ==> {
            &&& final(job).step is CloseKey
            &&& final(job).write_status == status
            &&& final(job).create_status == old(job).create_status
        },
        old(job).step is CloseKey || old(job).step is Done ==> {
            &&& final(job).step is Done
            &&& final(job).create_status == old(job).create_status
            &&& final(job).write_status == old(job).write_status
        },
{
}

/// The identity was registered unless a call failed.
pub proof fn law_identity_needs_every_write(job: &IdentityJob, outcome: Result<(), AppError>)
    requires
        call_ensures(IdentityJob::write_display_name, (job,), outcome),
    ensures
        outcome is Ok <==> job.create_status == 0 && job.write_status == 0,
{
}

/// How many pixels wide an entry of an icon directory says its image is; zero stands for 256.
pub open spec fn width_in_directory(directory: Seq<u8>, index: int) -> int {
    let width = directory[6 + 14 * index];
    if width == 0 {
        256
    } else {
        width as int
    }
}

/// Of a whole directory, whose entries of 14 bytes follow a count at its fifth byte, the entry is
/// picked whose width is closest to 32 pixels, the first of several. Nothing is picked of a
/// directory that is cut short.
pub proof fn law_the_icon_closest_to_32_pixels_is_picked(
    directory: &[u8],
    picked: Option<IconEntry>,
)
    requires
        call_ensures(pick_entry, (directory,), picked),
    ensures
        ({
            let count = directory@[4] + 256 * directory@[5];
            &&& picked is Some <==> directory@.len() >= 6 && count > 0 && directory@.len() >= 6 + 14
                * count
            &&& picked is Some ==> exists|best: int|
                #![trigger directory@[6 + 14 * best]]
                {
                    let at = 6 + 14 * best;
                    let off = |i: int|
                        {
                            let width = width_in_directory(directory@, i);
                            if width < 32 {
                                32 - width
                            } else {
                                width - 32
                            }
                        };
                    &&& 0 <= best < count
                    &&& picked->0.width == directory@[at]
                    &&& picked->0.height == directory@[at + 1]
                    &&& picked->0.color_count == directory@[at + 2]
                    &&& picked->0.planes == directory@[at + 4] + 256 * directory@[at + 5]
                    &&& picked->0.bit_count == directory@[at + 6] + 256 * directory@[at + 7]
                    &&& picked->0.image_id == directory@[at + 12] + 256 * directory@[at + 13]
                    &&& forall|i: int|
                        #![trigger width_in_directory(directory@, i)]
                        0 <= i < count ==> off(best) <= off(i) && (i < best ==> off(best) < off(i))
                }
        }),
{
    if picked is Some {
        let count = field16(directory@, 4)->0 as int;
        assert(count == directory@[4] + 256 * directory@[5]);
        let best = choose|best: int| #[trigger]
            is_closest(directory@, count, best) && picked == entry_at(directory@, best);
        assert(directory@[6 + 14 * best] == picked->0.width);
        assert forall|i: int|
            #![trigger width_in_directory(directory@, i)]
            0 <= i < count implies ({
            let off = |i: int|
                {
                    let width = width_in_directory(directory@, i);
                    if width < 32 {
                        32 - width
                    } else {
                        width - 32
                    }
                };
            off(best) <= off(i) && (i < best ==> off(best) < off(i))
        }) by {
            assert(entry_at(directory@, i) is Some);
            assert(entry_at(directory@, best) is Some);
            assert(icon_distance(entry_at(directory@, best)->0) <= icon_distance(
                entry_at(directory@, i)->0,
            ));
        }
    }
}

/// An icon file holds one image: a directory of one entry that describes it, and the image itself
/// from its twenty-third byte on.
#[verifier::spinoff_prover]
#[verifier::rlimit(50)]
pub proof fn law_icon_files_hold_one_image(entry: IconEntry, image: &[u8], icon: Vec<u8>)
    requires
        call_ensures(assemble_icon, (entry, image), icon),
        image@.len() <= u32::MAX,
    ensures
        icon@.len() == 22 + image@.len(),
        icon@.skip(22) == image@,
        icon@[0] == 0 && icon@[1] == 0,
        icon@[2] == 1 && icon@[3] == 0,
        icon@[4] == 1 && icon@[5] == 0,
        icon@[6] == entry.width,
        icon@[7] == entry.height,
        icon@[8] == entry.color_count,
        icon@[9] == 0,
        icon@[10] + 256 * icon@[11] == entry.planes,
        icon@[12] + 256 * icon@[13] == entry.bit_count,
        icon@[14] + 256 * icon@[15] + 65_536 * icon@[16] + 16_777_216 * icon@[17] == image@.len(),
        icon@[18] == 22 && icon@[19] == 0 && icon@[20] == 0 && icon@[21] == 0,
{
    law_icon_image_follows_its_header(entry, image@);
    bytes::law_le16_reads_back(entry.planes as int);
    bytes::law_le16_reads_back(entry.bit_count as int);
    assert(icon@.subrange(10, 12) =~= bytes::le16(entry.planes as int));
    assert(icon@.subrange(12, 14) =~= bytes::le16(entry.bit_count as int));
    assert(icon@[10] == icon@.subrange(10, 12)[0] && icon@[11] == icon@.subrange(10, 12)[1]);
    assert(icon@[12] == icon@.subrange(12, 14)[0] && icon@[13] == icon@.subrange(12, 14)[1]);
    assert(icon@.subrange(18, 22) =~= bytes::le32(22));
    assert(icon@[18] == icon@.subrange(18, 22)[0] && icon@[19] == icon@.subrange(18, 22)[1]);
    assert(icon@[20] == icon@.subrange(18, 22)[2] && icon@[21] == icon@.subrange(18, 22)[3]);
}

/// A failed call is reported with its status in decimal behind the message.
pub proof fn law_errors_end_in_their_status(message: &str, status: u32, error: AppError)
    requires
        call_ensures(status_error, (message, status), error),
    ensures
        error is Windows,
        error->Windows_0@.take(message@.len() as int) == message@,
        text::value_of(error->Windows_0@.skip(message@.len() as int)) == status,
{
    let reason = error->Windows_0@;
    text::law_decimal_reads_back(status as nat);
    assert(reason.take(message@.len() as int) =~= message@);
    assert(reason.skip(message@.len() as int) =~= text::decimal(status as nat));
}

/// Jobs start with their first call and nothing failed.
pub proof fn law_jobs_start_at_their_first_step(
    enabled: bool,
    autostart: AutostartJob,
    has_icon: bool,
    identity: IdentityJob,
)
    requires
        call_ensures(AutostartJob::new, (enabled,), autostart),
        call_ensures(IdentityJob::new, (has_icon,), identity),
    ensures
        autostart.enabled == enabled,
        autostart.step is OpenKey,
        autostart.open_status == 0 && autostart.write_status == 0,
        identity.has_icon == has_icon,
        identity.step is CreateKey,
        identity.create_status == 0 && identity.write_status == 0,
{
}

/// A short field is read from two bytes, the lower one first, where both are there.
pub proof fn law_short_fields_are_read_low_byte_first(
    bytes: &[u8],
    offset: usize,
    value: Option<u16>,
)
    requires
        call_ensures(read_u16, (bytes, offset), value),
    ensures
        value is Some <==> offset + 2 <= bytes@.len(),
        value is Some ==> value->0 == bytes@[offset as int] + 256 * bytes@[offset + 1],
{
}

/// A job that failed says at which of its calls, and with what status.
pub proof fn law_jobs_say_where_they_failed(
    autostart: &AutostartJob,
    switched: Result<(), AppError>,
    identity: &IdentityJob,
    registered: Result<(), AppError>,
    unopened: AppError,
    unchanged: AppError,
    uncreated: AppError,
    unwritten: AppError,
)
    requires
        call_ensures(AutostartJob::set_autostart, (autostart,), switched),
        call_ensures(IdentityJob::write_display_name, (identity,), registered),
        call_ensures(status_error, ("无法打开开机启动注册表项：", autostart.open_status), unopened),
        call_ensures(status_error, ("无法更新开机启动设置：", autostart.write_status), unchanged),
        call_ensures(status_error, ("无法创建应用标识项：", identity.create_status), uncreated),
        call_ensures(status_error, ("无法写入应用显示名：", identity.write_status), unwritten),
    ensures
        switched is Err && autostart.open_status != 0 ==> switched->Err_0.reason()
            == unopened.reason(),
        switched is Err && autostart.open_status == 0 ==> switched->Err_0.reason()
            == unchanged.reason(),
        registered is Err && identity.create_status != 0 ==> registered->Err_0.reason()
            == uncreated.reason(),
        registered is Err && identity.create_status == 0 ==> registered->Err_0.reason()
            == unwritten.reason(),
{
}

} // verus!
