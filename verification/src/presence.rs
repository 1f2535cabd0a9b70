//! Is Codex running? Which processes count, and when the answer is published.
//!
//! The application enumerates and opens processes and does the waiting; what it finds comes in
//! as plain facts, and what to do next goes back out.
use std::collections::HashSet;

use vstd::prelude::*;

use crate::error::AppError;
use crate::system;
use crate::system::{status_error, ERROR_SUCCESS};
use crate::text;
use crate::text::{chars_of, decode_utf16_lossy, eq_ignore_ascii_case, same};
use crate::time::{filetime_ticks, Duration, FileTime, Instant};

verus! {

/// A command line younger than this may be a one-off call and does not count yet.
pub const CLI_MINIMUM_LIFETIME_MILLIS: u64 = 800;

/// After the last process has gone, its absence is published only this much later.
pub const EXIT_GRACE_MILLIS: u64 = 2_000;

/// The path of the command line is looked up again this often.
pub const CLI_PATH_REFRESH_MILLIS: u64 = 30_000;

/// A failing scan is logged no more often than this.
pub const ERROR_LOG_MILLIS: u64 = 60_000;

/// One wait takes this many process handles beside the wake-up event.
pub const MAX_PROCESS_WAIT_HANDLES: usize = 63;

/// There are no more processes to list.
pub const ERROR_NO_MORE_FILES: u32 = 18;

/// The buffer offered was too small, as it is when only the length is asked for.
pub const ERROR_INSUFFICIENT_BUFFER: u32 = 122;

/// The process belongs to no package.
pub const APPMODEL_ERROR_NO_PACKAGE: u32 = 15_700;

/// A wait that failed.
pub const WAIT_FAILED: u32 = 0xffff_ffff;

pub open spec fn millis_nanos(millis: u64) -> int {
    millis * 1_000_000
}

/// `str::to_lowercase` maps a text to lower case by the Unicode tables; the name stands for
/// that mapping, of which nothing else is claimed here.
pub uninterp spec fn unicode_lowercase(characters: Seq<char>) -> Seq<char>;

/// `str::to_lowercase` depends on its text alone.
pub assume_specification[ str::to_lowercase ](s: &str) -> (lowercase: String)
    ensures
        lowercase@ == unicode_lowercase(s@),
;

/// What wakes the watcher from outside.
#[derive(Clone, Copy, Debug, PartialEq, Eq, Structural)]
pub enum WatcherCommand {
    Recheck,
    Shutdown,
}

/// How a wait for a command ended.
#[derive(Clone, Copy, Debug, PartialEq, Eq, Structural)]
pub enum CommandWait {
    Received(WatcherCommand),
    TimedOut,
    Disconnected,
}

/// Whether the commands waiting in the queue, or the loss of their sender, end the watcher.
pub fn should_shutdown(waiting: &[WatcherCommand], disconnected: bool) -> (ends: bool)
    ensures
        ends == (disconnected || waiting@.contains(WatcherCommand::Shutdown)),
{
    let mut i: usize = 0;
    while i < waiting.len()
        invariant
            i <= waiting.len(),
            forall|j: int| 0 <= j < i ==> waiting@[j] != WatcherCommand::Shutdown,
        decreases waiting.len() - i,
    {
        if waiting[i] == WatcherCommand::Shutdown {
            assert(waiting@.contains(WatcherCommand::Shutdown));
            return true;
        }
        i += 1;
    }
    disconnected
}

/// Whether the pause after a failed scan ended the watcher.
pub fn wait_after_scan_error(received: CommandWait) -> (ends: bool)
    ensures
        ends == (received == CommandWait::Disconnected || received == CommandWait::Received(
            WatcherCommand::Shutdown,
        )),
{
    match received {
        CommandWait::Received(WatcherCommand::Shutdown) | CommandWait::Disconnected => true,
        CommandWait::Received(WatcherCommand::Recheck) | CommandWait::TimedOut => false,
    }
}

/// Milliseconds for a system wait: at least one, and one short of the largest number for a span
/// that has no number. The largest number itself, which makes a wait endless, stands only for
/// the span of exactly that length.
pub open spec fn wait_millis(nanos: nat) -> nat {
    let millis = nanos / 1_000_000;
    if millis == 0 {
        1
    } else if millis > u32::MAX {
        (u32::MAX - 1) as nat
    } else {
        millis
    }
}

pub fn duration_to_wait_millis(duration: Duration) -> (millis: u32)
    ensures
        millis == wait_millis(duration.nanos as nat),
{
    let millis: u128 = duration.as_millis();
    if millis == 0 {
        1
    } else if millis > u32::MAX as u128 {
        u32::MAX - 1
    } else {
        millis as u32
    }
}

/// The shorter of two spans.
pub open spec fn shorter(a: Duration, b: Duration) -> Duration {
    if a.nanos <= b.nanos {
        a
    } else {
        b
    }
}

fn shorter_of(a: Duration, b: Duration) -> (span: Duration)
    ensures
        span == shorter(a, b),
{
    if a.nanos <= b.nanos {
        a
    } else {
        b
    }
}

/// The shortest of the spans that are there.
pub open spec fn shortest(
    first: Option<Duration>,
    second: Option<Duration>,
    fallback: Duration,
) -> Duration {
    let with_second = match second {
        Some(span) => shorter(span, fallback),
        None => fallback,
    };
    match first {
        Some(span) => shorter(span, with_second),
        None => with_second,
    }
}

pub fn minimum_timeout(first: Option<Duration>, second: Option<Duration>, fallback: Duration) -> (
    timeout: Duration)
    ensures
        timeout == shortest(first, second, fallback),
        timeout.nanos <= fallback.nanos,
        first is Some ==> timeout.nanos <= first->0.nanos,
        second is Some ==> timeout.nanos <= second->0.nanos,
{
    let with_second = match second {
        Some(span) => shorter_of(span, fallback),
        None => fallback,
    };
    match first {
        Some(span) => shorter_of(span, with_second),
        None => with_second,
    }
}

/// How to wait: on the process handles as well as on the event, and for how many milliseconds.
#[derive(Clone, Copy, Debug, PartialEq, Eq, Structural)]
pub struct WaitPlan {
    pub wait_on_processes: bool,
    pub millis: u32,
}

/// Plans a wait for `processes` handles. More of them than one wait takes are left out, and the
/// wait is then no longer than the idle interval.
pub open spec fn planned_wait(
    processes: usize,
    requested: Option<Duration>,
    idle: Duration,
) -> WaitPlan {
    if processes > MAX_PROCESS_WAIT_HANDLES {
        WaitPlan {
            wait_on_processes: false,
            millis: wait_millis(
                match requested {
                    Some(span) => shorter(span, idle).nanos as nat,
                    None => idle.nanos as nat,
                },
            ) as u32,
        }
    } else {
        WaitPlan {
            wait_on_processes: true,
            millis: match requested {
                Some(span) => wait_millis(span.nanos as nat) as u32,
                None => u32::MAX,
            },
        }
    }
}

pub fn wait_until_rescan(
    processes: usize,
    requested: Option<Duration>,
    idle: Duration,
) -> (plan: WaitPlan)
    ensures
        plan == planned_wait(processes, requested, idle),
{
    if processes > MAX_PROCESS_WAIT_HANDLES {
        let timeout = match requested {
            Some(span) => shorter_of(span, idle),
            None => idle,
        };
        WaitPlan { wait_on_processes: false, millis: duration_to_wait_millis(timeout) }
    } else {
        WaitPlan {
            wait_on_processes: true,
            millis: match requested {
                Some(span) => duration_to_wait_millis(span),
                None => u32::MAX,
            },
        }
    }
}

/// Whether a package family is the Codex application's.
pub fn is_codex_app_family(family: &str) -> (is_codex: bool)
    ensures
        is_codex == (family@ == "OpenAI.Codex_2p2nqsd0c76g0"@),
{
    same(family, "OpenAI.Codex_2p2nqsd0c76g0")
}

/// Whether a process may be the command line, started by someone else than this program.
pub fn is_external_cli_candidate(executable_name: &str, parent_pid: u32, own_pid: u32) -> (
    candidate: bool)
    ensures
        candidate == (parent_pid != own_pid && text::lowered(executable_name@) == text::lowered(
            "codex.exe"@,
        )),
{
    parent_pid != own_pid && eq_ignore_ascii_case(executable_name, "codex.exe")
}

/// A lower-case path with backslashes and without the verbatim prefix.
pub open spec fn plain_path(lowered: Seq<char>) -> Seq<char> {
    let path = lowered.map_values(
        |c: char|
            if c == '/' {
                '\\'
            } else {
                c
            },
    );
    if path.len() >= 4 && path.take(4) == "\\\\?\\"@ {
        path.skip(4)
    } else {
        path
    }
}

/// Brings a lower-case path into the form in which paths are compared.
pub fn normalize_lowered(lowered: &str) -> (normal: String)
    ensures
        normal@ == plain_path(lowered@),
{
    let mut chars = chars_of(lowered);
    let ghost mapped = lowered@.map_values(
        |c: char|
            if c == '/' {
                '\\'
            } else {
                c
            },
    );
    let mut i: usize = 0;
    while i < chars.len()
        invariant
            i <= chars.len(),
            chars.len() == lowered@.len(),
            mapped.len() == lowered@.len(),
            mapped == lowered@.map_values(
                |c: char|
                    if c == '/' {
                        '\\'
                    } else {
                        c
                    },
            ),
            forall|j: int| 0 <= j < i ==> chars@[j] == mapped[j],
            forall|j: int| i <= j < chars.len() ==> chars@[j] == lowered@[j],
        decreases chars.len() - i,
    {
        if chars[i] == '/' {
            chars.set(i, '\\');
        }
        i += 1;
    }
    assert(chars@ =~= mapped);
    proof {
        reveal_strlit("\\\\?\\");
    }
    let verbatim = chars.len() >= 4 && chars[0] == '\\' && chars[1] == '\\' && chars[2] == '?'
        && chars[3] == '\\';
    proof {
        if verbatim {
            assert(mapped.take(4) =~= "\\\\?\\"@);
        } else if mapped.len() >= 4 && mapped.take(4) == "\\\\?\\"@ {
            assert(mapped[0] == mapped.take(4)[0]);
            assert(mapped[1] == mapped.take(4)[1]);
            assert(mapped[2] == mapped.take(4)[2]);
            assert(mapped[3] == mapped.take(4)[3]);
        }
    }
    let start: usize = if verbatim {
        4
    } else {
        0
    };
    let mut normal = String::new();
    let mut k: usize = start;
    while k < chars.len()
        invariant
            start <= k <= chars.len(),
            chars@ == mapped,
            normal@ == mapped.subrange(start as int, k as int),
        decreases chars.len() - k,
    {
        normal.push(chars[k]);
        k += 1;
        assert(normal@ =~= mapped.subrange(start as int, k as int));
    }
    assert(normal@ =~= plain_path(lowered@));
    normal
}

/// The form in which paths are compared: two spellings of one file compare equal.
pub fn normalize_path(resolved: &str) -> (normal: String)
    ensures
        normal@ == plain_path(unicode_lowercase(resolved@)),
{
    let lowered = resolved.to_lowercase();
    normalize_lowered(lowered.as_str())
}

/// Where the command line is, as found and as compared.
#[derive(Debug)]
pub struct ResolvedCliPath {
    pub path: String,
    pub normalized: String,
}

/// The command line's path: `found` is where it was found, if it was, and the path with its
/// links resolved.
pub fn resolve_cli_path(found: Option<(&str, &str)>) -> (cli: Option<ResolvedCliPath>)
    ensures
        cli is Some <==> found is Some,
        found matches Some((path, resolved)) ==> cli->0.path@ == path@ && cli->0.normalized@
            == plain_path(unicode_lowercase(resolved@)),
{
    match found {
        Some((path, resolved)) => Some(
            ResolvedCliPath { path: path.to_owned(), normalized: normalize_path(resolved) },
        ),
        None => None,
    }
}

/// Position of the first zero, or the length.
pub open spec fn before_nul(units: Seq<u16>) -> int
    decreases units.len(),
{
    if units.len() == 0 || units[0] == 0 {
        0
    } else {
        1 + before_nul(units.skip(1))
    }
}

proof fn lemma_before_nul(units: Seq<u16>, end: int)
    requires
        0 <= end <= units.len(),
        forall|j: int| 0 <= j < end ==> units[j] != 0,
        end < units.len() ==> units[end] == 0,
    ensures
        before_nul(units) == end,
    decreases units.len(),
{
    if end > 0 {
        assert(units[0] != 0);
        let rest = units.skip(1);
        assert forall|j: int| 0 <= j < end - 1 implies rest[j] != 0 by {
            assert(rest[j] == units[j + 1]);
        }
        if end - 1 < rest.len() {
            assert(rest[end - 1] == units[end]);
        }
        lemma_before_nul(rest, end - 1);
    } else if units.len() > 0 {
        assert(units[0] == 0);
    }
}

/// The text of a wide string, up to its terminating zero.
pub open spec fn wide_text(units: Seq<u16>) -> Seq<char> {
    text::from_utf16(units.take(before_nul(units)))
}

pub fn wide_slice_to_string(value: &[u16]) -> (shown: String)
    ensures
        shown@ == wide_text(value@),
{
    let mut end: usize = 0;
    while end < value.len() && value[end] != 0
        invariant
            end <= value.len(),
            forall|j: int| 0 <= j < end ==> value@[j] != 0,
        decreases value.len() - end,
    {
        end += 1;
    }
    proof {
        lemma_before_nul(value@, end as int);
        assert(value@.subrange(0, end as int) =~= value@.take(end as int));
    }
    decode_utf16_lossy(value, 0, end)
}

pub fn wide_array_to_string(value: &[u16]) -> (shown: String)
    ensures
        shown@ == wide_text(value@),
{
    wide_slice_to_string(value)
}

/// What the end of a process listing means: the end of the list, or a failure. `listed` says
/// whether a process had been listed before.
pub fn enumerate_processes(listed: bool, last_error: u32) -> (end: Result<(), AppError>)
    ensures
        end is Ok <==> last_error == ERROR_NO_MORE_FILES,
        end is Err && !listed ==> end->Err_0.is_windows(
            system::with_status("无法读取首个进程："@, last_error),
        ),
        end is Err && listed ==> end->Err_0.is_windows(
            system::with_status("无法继续读取进程："@, last_error),
        ),
{
    if last_error == ERROR_NO_MORE_FILES {
        Ok(())
    } else if listed {
        Err(status_error("无法继续读取进程：", last_error))
    } else {
        Err(status_error("无法读取首个进程：", last_error))
    }
}

/// How many units the package family of a process takes, from asking with no buffer; none where
/// the process belongs to no package.
pub fn package_family_length(status: u32, length: u32) -> (units: Result<Option<u32>, AppError>)
    ensures
        status == APPMODEL_ERROR_NO_PACKAGE ==> units == Ok::<Option<u32>, AppError>(None),
        status == ERROR_INSUFFICIENT_BUFFER && length != 0 ==> units == Ok::<
            Option<u32>,
            AppError,
        >(Some(length)),
        status != APPMODEL_ERROR_NO_PACKAGE && (status != ERROR_INSUFFICIENT_BUFFER || length == 0)
            ==> units is Err && units->Err_0.is_windows(
            system::with_status("GetPackageFamilyName 长度查询失败："@, status),
        ),
{
    if status == APPMODEL_ERROR_NO_PACKAGE {
        Ok(None)
    } else if status != ERROR_INSUFFICIENT_BUFFER || length == 0 {
        Err(status_error("GetPackageFamilyName 长度查询失败：", status))
    } else {
        Ok(Some(length))
    }
}

/// The package family that was read into `buffer`.
pub fn process_package_family(status: u32, buffer: &[u16]) -> (family: Result<String, AppError>)
    ensures
        family is Ok <==> status == ERROR_SUCCESS,
        family is Ok ==> family->Ok_0@ == wide_text(buffer@),
        family is Err ==> family->Err_0.is_windows(
            system::with_status("GetPackageFamilyName 读取失败："@, status),
        ),
{
    if status != ERROR_SUCCESS {
        return Err(status_error("GetPackageFamilyName 读取失败：", status));
    }
    Ok(wide_slice_to_string(buffer))
}

/// Whether a wait ended as a wait should.
pub fn wait_for_handles(result: u32, last_error: u32) -> (ended: Result<(), AppError>)
    ensures
        ended is Ok <==> result != WAIT_FAILED,
        ended is Err ==> ended->Err_0.is_windows(
            system::with_status("WaitForMultipleObjects 返回错误 "@, last_error),
        ),
{
    if result == WAIT_FAILED {
        Err(status_error("WaitForMultipleObjects 返回错误 ", last_error))
    } else {
        Ok(())
    }
}

/// How long a process has run, from its creation to now; zero where the clock was set back.
pub fn process_age(now: FileTime, creation: FileTime) -> (age: Duration)
    ensures
        age.nanos == ({
            let ticks = if now.ticks() > creation.ticks() {
                now.ticks() - creation.ticks()
            } else {
                0
            };
            if ticks * 100 > u64::MAX {
                u64::MAX as int
            } else {
                ticks * 100
            }
        }),
{
    let ticks: u64 = filetime_ticks(now).saturating_sub(filetime_ticks(creation));
    let nanos: u128 = ticks as u128 * 100;
    if nanos > u64::MAX as u128 {
        Duration::from_nanos(u64::MAX)
    } else {
        Duration::from_nanos(nanos as u64)
    }
}

/// What is known of one process.
pub struct ProcessFacts {
    pub pid: u32,
    pub parent_pid: u32,
    pub executable_name: String,
    /// Family of the package it belongs to, if it could be opened and belongs to one.
    pub package_family: Option<String>,
    /// Its program file in comparable form, if it could be opened and told.
    pub image_path: Option<String>,
    /// How long it has run, if it could be told.
    pub age: Option<Duration>,
}

/// What has to be asked about a process before it can be judged.
#[derive(Clone, Copy, Debug, PartialEq, Eq, Structural)]
pub enum Probe {
    PackageFamily,
    ImagePath,
    Nothing,
}

/// Which program files count: the application's, and where its path is known and the file
/// there, the command line's.
pub open spec fn probe_of(
    executable_name: Seq<char>,
    parent_pid: u32,
    own_pid: u32,
    cli_is_there: bool,
) -> Probe {
    if text::lowered(executable_name) == text::lowered("ChatGPT.exe"@) {
        Probe::PackageFamily
    } else if cli_is_there && parent_pid != own_pid && text::lowered(executable_name)
        == text::lowered("codex.exe"@) {
        Probe::ImagePath
    } else {
        Probe::Nothing
    }
}

pub fn probe_for(executable_name: &str, parent_pid: u32, own_pid: u32, cli_is_there: bool) -> (
    probe: Probe)
    ensures
        probe == probe_of(executable_name@, parent_pid, own_pid, cli_is_there),
{
    if eq_ignore_ascii_case(executable_name, "ChatGPT.exe") {
        Probe::PackageFamily
    } else if cli_is_there && is_external_cli_candidate(executable_name, parent_pid, own_pid) {
        Probe::ImagePath
    } else {
        Probe::Nothing
    }
}

/// What the processes are judged by.
pub struct ScanContext {
    pub own_pid: u32,
    /// The command line's path in comparable form, if its file is there.
    pub cli_path: Option<String>,
}

impl ScanContext {
    /// The process is a part of the Codex application.
    pub open spec fn is_app(self, process: ProcessFacts) -> bool {
        &&& probe_of(
            process.executable_name@,
            process.parent_pid,
            self.own_pid,
            self.cli_path is Some,
        ) == Probe::PackageFamily
        &&& process.package_family is Some
        &&& process.package_family->0@ == "OpenAI.Codex_2p2nqsd0c76g0"@
    }

    /// The process is the Codex command line, started by someone else.
    pub open spec fn is_cli(self, process: ProcessFacts) -> bool {
        &&& probe_of(
            process.executable_name@,
            process.parent_pid,
            self.own_pid,
            self.cli_path is Some,
        ) == Probe::ImagePath
        &&& process.image_path is Some
        &&& process.image_path->0@ == self.cli_path->0@
    }

    fn judges_app(&self, process: &ProcessFacts) -> (is_app: bool)
        ensures
            is_app == self.is_app(*process),
    {
        if probe_for(
            process.executable_name.as_str(),
            process.parent_pid,
            self.own_pid,
            self.cli_path.is_some(),
        ) != Probe::PackageFamily {
            return false;
        }
        match &process.package_family {
            Some(family) => is_codex_app_family(family.as_str()),
            None => false,
        }
    }

    fn judges_cli(&self, process: &ProcessFacts) -> (is_cli: bool)
        ensures
            is_cli == self.is_cli(*process),
    {
        if probe_for(
            process.executable_name.as_str(),
            process.parent_pid,
            self.own_pid,
            self.cli_path.is_some(),
        ) != Probe::ImagePath {
            return false;
        }
        match (&process.image_path, &self.cli_path) {
            (Some(image), Some(cli)) => same(image.as_str(), cli.as_str()),
            _ => false,
        }
    }
}

/// Age of a process; one that cannot be told counts as new.
pub open spec fn age_of(process: ProcessFacts) -> int {
    match process.age {
        Some(age) => age.nanos as int,
        None => 0,
    }
}

/// The indices below `n` that a predicate picks, in order.
pub open spec fn indices_where(n: int, picks: spec_fn(int) -> bool) -> Seq<usize>
    decreases n,
{
    if n <= 0 {
        Seq::empty()
    } else if picks(n - 1) {
        indices_where(n - 1, picks).push((n - 1) as usize)
    } else {
        indices_where(n - 1, picks)
    }
}

/// Picking yields exactly the indices that satisfy the predicate.
pub proof fn lemma_indices_where(n: int, picks: spec_fn(int) -> bool, i: usize)
    requires
        0 <= n <= usize::MAX,
    ensures
        indices_where(n, picks).contains(i) <==> (i < n && picks(i as int)),
    decreases n,
{
    if n > 0 {
        let rest = indices_where(n - 1, picks);
        lemma_indices_where(n - 1, picks, i);
        if picks(n - 1) {
            let all = rest.push((n - 1) as usize);
            if all.contains(i) {
                let k = choose|k: int| 0 <= k < all.len() && all[k] == i;
                if k < rest.len() {
                    assert(rest[k] == i);
                    assert(rest.contains(i));
                }
            }
            if rest.contains(i) {
                let k = choose|k: int| 0 <= k < rest.len() && rest[k] == i;
                assert(all[k] == i);
            }
            if i == n - 1 {
                assert(all[rest.len() as int] == i);
            }
        }
    }
}

/// Process and parent of each part of the application, in order.
pub open spec fn relations_of(
    context: ScanContext,
    processes: Seq<ProcessFacts>,
) -> Seq<(u32, u32)> {
    let parts = indices_where(
        processes.len() as int,
        |i: int| context.is_app(processes[i]),
    );
    parts.map_values(|i: usize| (processes[i as int].pid, processes[i as int].parent_pid))
}

/// Whether a process is a root among these: not started by another of them.
pub open spec fn is_root_pid(relations: Seq<(u32, u32)>, pid: u32) -> bool {
    exists|i: int|
        #![trigger relations[i]]
        0 <= i < relations.len() && relations[i].0 == pid && !has_pid(relations, relations[i].1)
}

pub open spec fn has_pid(relations: Seq<(u32, u32)>, pid: u32) -> bool {
    exists|i: int| #![trigger relations[i]] 0 <= i < relations.len() && relations[i].0 == pid
}

pub fn app_root_pids(relations: &[(u32, u32)]) -> (roots: HashSet<u32>)
    ensures
        forall|pid: u32| #[trigger] roots@.contains(pid) <==> is_root_pid(relations@, pid),
{
    broadcast use vstd::std_specs::hash::group_hash_axioms;

    let mut pids: HashSet<u32> = HashSet::new();
    let mut i: usize = 0;
    while i < relations.len()
        invariant
            i <= relations.len(),
            forall|pid: u32| #[trigger]
                pids@.contains(pid) <==> has_pid(relations@.take(i as int), pid),
        decreases relations.len() - i,
    {
        pids.insert(relations[i].0);
        proof {
            let before = relations@.take(i as int);
            let after = relations@.take(i + 1);
            assert forall|pid: u32| has_pid(after, pid) <==> (has_pid(before, pid) || pid
                == relations@[i as int].0) by {
                if has_pid(after, pid) {
                    let k = choose|k: int|
                        #![trigger after[k]]
                        0 <= k < after.len() && after[k].0 == pid;
                    if k < i {
                        assert(before[k] == after[k]);
                    }
                }
                if has_pid(before, pid) {
                    let k = choose|k: int|
                        #![trigger before[k]]
                        0 <= k < before.len() && before[k].0 == pid;
                    assert(after[k] == before[k]);
                }
                assert(after[i as int] == relations@[i as int]);
            }
        }
        i += 1;
    }
    assert(relations@.take(i as int) =~= relations@);
    let mut roots: HashSet<u32> = HashSet::new();
    let mut j: usize = 0;
    while j < relations.len()
        invariant
            j <= relations.len(),
            forall|pid: u32| #[trigger] pids@.contains(pid) <==> has_pid(relations@, pid),
            forall|pid: u32| #[trigger]
                roots@.contains(pid) <==> exists|i: int|
                    #![trigger relations@[i]]
                    0 <= i < j && relations@[i].0 == pid && !has_pid(relations@, relations@[i].1),
        decreases relations.len() - j,
    {
        if !pids.contains(&relations[j].1) {
            roots.insert(relations[j].0);
        }
        j += 1;
    }
    roots
}

/// Every root is one of the given processes, and its parent is not.
pub proof fn law_roots_have_no_parent_here(relations: Seq<(u32, u32)>, pid: u32)
    requires
        is_root_pid(relations, pid),
    ensures
        has_pid(relations, pid),
        exists|i: int|
            #![trigger relations[i]]
            0 <= i < relations.len() && relations[i].0 == pid && forall|j: int|
                #![trigger relations[j]]
                0 <= j < relations.len() ==> relations[j].0 != relations[i].1,
{
    let i = choose|i: int|
        #![trigger relations[i]]
        0 <= i < relations.len() && relations[i].0 == pid && !has_pid(relations, relations[i].1);
    assert(relations[i].0 == pid);
    assert forall|j: int|
        #![trigger relations[j]]
        0 <= j < relations.len() implies relations[j].0 != relations[i].1 by {}
}

/// What one look at the processes found, as indices into them.
#[derive(Debug)]
pub struct PresenceScan {
    /// Processes that make Codex present.
    pub active: Vec<usize>,
    /// Command lines too young to count.
    pub pending_cli: Vec<usize>,
    /// Time until the first of them is old enough.
    pub next_cli_activation: Option<Duration>,
}

/// Whether a process is a root of the application.
pub open spec fn counts_as_app(
    context: ScanContext,
    processes: Seq<ProcessFacts>,
    i: int,
) -> bool {
    context.is_app(processes[i]) && is_root_pid(
        relations_of(context, processes),
        processes[i].pid,
    )
}

/// Whether a process is a command line that has run long enough.
pub open spec fn counts_as_cli(
    context: ScanContext,
    processes: Seq<ProcessFacts>,
    i: int,
) -> bool {
    context.is_cli(processes[i]) && age_of(processes[i]) >= millis_nanos(
        CLI_MINIMUM_LIFETIME_MILLIS,
    )
}

/// Whether a process is a command line that has not run long enough.
pub open spec fn is_young_cli(
    context: ScanContext,
    processes: Seq<ProcessFacts>,
    i: int,
) -> bool {
    context.is_cli(processes[i]) && age_of(processes[i]) < millis_nanos(
        CLI_MINIMUM_LIFETIME_MILLIS,
    )
}

/// The time until the first young command line among the first `n` processes is old enough.
pub open spec fn soonest_activation(
    context: ScanContext,
    processes: Seq<ProcessFacts>,
    n: int,
) -> Option<Duration>
    decreases n,
{
    if n <= 0 {
        None
    } else {
        let before = soonest_activation(context, processes, n - 1);
        if is_young_cli(context, processes, n - 1) {
            let remaining = Duration {
                nanos: (millis_nanos(CLI_MINIMUM_LIFETIME_MILLIS) - age_of(
                    processes[n - 1],
                )) as u128,
            };
            match before {
                Some(current) => Some(shorter(current, remaining)),
                None => Some(remaining),
            }
        } else {
            before
        }
    }
}

impl PresenceScan {
    pub fn is_present(&self) -> (present: bool)
        ensures
            present == (self.active@.len() > 0),
    {
        self.active.len() > 0
    }
}

/// Judges the processes: roots of the application count, and command lines that have run long
/// enough; younger ones are watched until they have.
pub fn scan_codex_processes(context: &ScanContext, processes: &[ProcessFacts]) -> (scan:
    PresenceScan)
    ensures
        scan.active@ == indices_where(
            processes@.len() as int,
            |i: int| counts_as_app(*context, processes@, i),
        ) + indices_where(
            processes@.len() as int,
            |i: int| counts_as_cli(*context, processes@, i),
        ),
        scan.pending_cli@ == indices_where(
            processes@.len() as int,
            |i: int| is_young_cli(*context, processes@, i),
        ),
        scan.next_cli_activation == soonest_activation(
            *context,
            processes@,
            processes@.len() as int,
        ),
{
    let ghost is_part = |i: int| context.is_app(processes@[i]);
    let ghost is_root = |i: int| counts_as_app(*context, processes@, i);
    let ghost is_old = |i: int| counts_as_cli(*context, processes@, i);
    let ghost is_young = |i: int| is_young_cli(*context, processes@, i);
    let ghost pair = |i: usize| (processes@[i as int].pid, processes@[i as int].parent_pid);
    let mut relations: Vec<(u32, u32)> = Vec::new();
    let mut i: usize = 0;
    while i < processes.len()
        invariant
            i <= processes.len(),
            is_part == (|i: int| context.is_app(processes@[i])),
            pair == (|i: usize| (processes@[i as int].pid, processes@[i as int].parent_pid)),
            relations@ == indices_where(i as int, is_part).map_values(pair),
        decreases processes.len() - i,
    {
        let ghost parts = indices_where(i as int, is_part);
        let app = context.judges_app(&processes[i]);
        assert(is_part(i as int) == app);
        if app {
            relations.push((processes[i].pid, processes[i].parent_pid));
            assert(relations@ =~= parts.push(i).map_values(pair));
        }
        i += 1;
        assert(indices_where(i as int, is_part) == if app {
            parts.push((i - 1) as usize)
        } else {
            parts
        });
    }
    assert(relations@ == relations_of(*context, processes@));
    let roots = app_root_pids(relations.as_slice());
    let mut active: Vec<usize> = Vec::new();
    let mut j: usize = 0;
    while j < processes.len()
        invariant
            j <= processes.len(),
            is_root == (|i: int| counts_as_app(*context, processes@, i)),
            forall|pid: u32| #[trigger]
                roots@.contains(pid) <==> is_root_pid(relations_of(*context, processes@), pid),
            active@ == indices_where(j as int, is_root),
        decreases processes.len() - j,
    {
        broadcast use vstd::std_specs::hash::group_hash_axioms;

        let ghost before = active@;
        let counts = context.judges_app(&processes[j]) && roots.contains(&processes[j].pid);
        assert(is_root(j as int) == counts);
        if counts {
            active.push(j);
        }
        j += 1;
        assert(indices_where(j as int, is_root) == if counts {
            before.push((j - 1) as usize)
        } else {
            before
        });
    }
    let ghost apps = active@;
    let needed = Duration::from_millis(CLI_MINIMUM_LIFETIME_MILLIS);
    let mut pending_cli: Vec<usize> = Vec::new();
    let mut next_cli_activation: Option<Duration> = None;
    let mut k: usize = 0;
    assert(active@ =~= apps + indices_where(0, is_old));
    while k < processes.len()
        invariant
            k <= processes.len(),
            needed.nanos == millis_nanos(CLI_MINIMUM_LIFETIME_MILLIS),
            is_old == (|i: int| counts_as_cli(*context, processes@, i)),
            is_young == (|i: int| is_young_cli(*context, processes@, i)),
            active@ == apps + indices_where(k as int, is_old),
            pending_cli@ == indices_where(k as int, is_young),
            next_cli_activation == soonest_activation(*context, processes@, k as int),
        decreases processes.len() - k,
    {
        let ghost old_before = indices_where(k as int, is_old);
        let ghost young_before = indices_where(k as int, is_young);
        let cli = context.judges_cli(&processes[k]);
        let age = match processes[k].age {
            Some(age) => age,
            None => Duration::from_nanos(0),
        };
        let old_enough = age.nanos >= needed.nanos;
        assert(is_old(k as int) == (cli && old_enough));
        assert(is_young(k as int) == (cli && !old_enough));
        if cli {
            if old_enough {
                active.push(k);
            } else {
                let remaining = needed.saturating_sub(age);
                next_cli_activation = match next_cli_activation {
                    Some(current) => Some(shorter_of(current, remaining)),
                    None => Some(remaining),
                };
                pending_cli.push(k);
            }
        }
        k += 1;
        assert(indices_where(k as int, is_old) == if cli && old_enough {
            old_before.push((k - 1) as usize)
        } else {
            old_before
        });
        assert(indices_where(k as int, is_young) == if cli && !old_enough {
            young_before.push((k - 1) as usize)
        } else {
            young_before
        });
        assert(active@ =~= apps + indices_where(k as int, is_old));
    }
    PresenceScan { active, pending_cli, next_cli_activation }
}

/// The watcher's memory between two scans.
#[derive(Clone, Copy, Debug, PartialEq, Eq, Structural)]
pub struct Watcher {
    /// How long to wait before looking again while nothing runs.
    pub idle_interval: Duration,
    pub published_presence: bool,
    pub absence_started: Option<Instant>,
    pub next_cli_path_refresh: Instant,
    pub last_error_log: Option<Instant>,
}

/// What to do after a scan.
#[derive(Clone, Copy, Debug, PartialEq, Eq, Structural)]
pub struct ScanResponse {
    /// Presence to publish, if it has changed.
    pub publish: Option<bool>,
    /// How long to wait before the next scan; without limit where this is none.
    pub timeout: Option<Duration>,
}

impl Watcher {
    pub fn new(idle_interval: Duration, now: Instant) -> (watcher: Watcher)
        ensures
            watcher == (Watcher {
                idle_interval,
                published_presence: false,
                absence_started: None,
                next_cli_path_refresh: now,
                last_error_log: None,
            }),
            watcher.well_formed(),
    {
        Watcher {
            idle_interval,
            published_presence: false,
            absence_started: None,
            next_cli_path_refresh: now,
            last_error_log: None,
        }
    }

    /// An absence is timed only while presence is published.
    pub open spec fn well_formed(self) -> bool {
        self.absence_started is Some ==> self.published_presence
    }

    /// Whether the command line's path is to be looked up again; if so, the next time is set.
    pub fn refreshes_cli_path(&mut self, now: Instant) -> (due: bool)
        requires
            now.nanos + millis_nanos(CLI_PATH_REFRESH_MILLIS) <= u128::MAX,
        ensures
            due == (now.nanos >= old(self).next_cli_path_refresh.nanos),
            due ==> *final(self) == (Watcher {
                next_cli_path_refresh: Instant {
                    nanos: (now.nanos + millis_nanos(CLI_PATH_REFRESH_MILLIS)) as u128,
                },
                ..*old(self)
            }),
            !due ==> *final(self) == *old(self),
    {
        if now.nanos >= self.next_cli_path_refresh.nanos {
            self.next_cli_path_refresh = Instant {
                nanos: now.nanos + Duration::from_millis(CLI_PATH_REFRESH_MILLIS).nanos,
            };
            true
        } else {
            false
        }
    }

    /// Whether a failed scan is to be logged.
    pub fn logs_error(&mut self, now: Instant) -> (logs: bool)
        ensures
            logs == (old(self).last_error_log is Some ==> now.since(old(self).last_error_log->0)
                >= millis_nanos(ERROR_LOG_MILLIS)),
            *final(self) == (Watcher {
                last_error_log: if logs {
                    Some(now)
                } else {
                    old(self).last_error_log
                },
                ..*old(self)
            }),
    {
        let due = match self.last_error_log {
            Some(last) => now.saturating_duration_since(last).nanos >= Duration::from_millis(
                ERROR_LOG_MILLIS,
            ).nanos,
            None => true,
        };
        if due {
            self.last_error_log = Some(now);
        }
        due
    }

    /// How long the absence has lasted at `now`; it starts with the first scan that finds
    /// nothing.
    pub open spec fn absent_for(self, now: Instant) -> nat {
        match self.absence_started {
            Some(started) => now.since(started),
            None => 0,
        }
    }

    pub open spec fn after_scan(self, present: bool, now: Instant) -> Watcher {
        if present {
            Watcher { published_presence: true, absence_started: None, ..self }
        } else if !self.published_presence {
            self
        } else if self.absent_for(now) >= millis_nanos(EXIT_GRACE_MILLIS) {
            Watcher { published_presence: false, absence_started: None, ..self }
        } else {
            Watcher {
                absence_started: Some(
                    match self.absence_started {
                        Some(started) => started,
                        None => now,
                    },
                ),
                ..self
            }
        }
    }

    pub open spec fn response(
        self,
        present: bool,
        next_cli_activation: Option<Duration>,
        now: Instant,
    ) -> ScanResponse {
        if present {
            ScanResponse {
                publish: if self.published_presence {
                    None
                } else {
                    Some(true)
                },
                timeout: None,
            }
        } else {
            let leaves = self.published_presence && self.absent_for(now) >= millis_nanos(
                EXIT_GRACE_MILLIS,
            );
            let grace = if self.published_presence && !leaves {
                Some(
                    Duration {
                        nanos: (millis_nanos(EXIT_GRACE_MILLIS) - self.absent_for(now)) as u128,
                    },
                )
            } else {
                None
            };
            ScanResponse {
                publish: if leaves {
                    Some(false)
                } else {
                    None
                },
                timeout: Some(
                    shortest(
                        grace,
                        next_cli_activation,
                        self.idle_interval,
                    ),
                ),
            }
        }
    }

    /// Takes in what a scan found and says what to publish and how long to wait.
    pub fn observe(
        &mut self,
        present: bool,
        next_cli_activation: Option<Duration>,
        now: Instant,
    ) -> (response: ScanResponse)
        requires
            old(self).well_formed(),
        ensures
            final(self).well_formed(),
            *final(self) == old(self).after_scan(present, now),
            response == old(self).response(present, next_cli_activation, now),
    {
        if present {
            let publish = if self.published_presence {
                None
            } else {
                Some(true)
            };
            self.absence_started = None;
            self.published_presence = true;
            return ScanResponse { publish, timeout: None };
        }
        let grace_period = Duration::from_millis(EXIT_GRACE_MILLIS);
        let mut publish: Option<bool> = None;
        let mut grace_remaining: Option<Duration> = None;
        if self.published_presence {
            let started = match self.absence_started {
                Some(started) => started,
                None => now,
            };
            self.absence_started = Some(started);
            let elapsed = now.saturating_duration_since(started);
            if elapsed.nanos >= grace_period.nanos {
                publish = Some(false);
                self.published_presence = false;
                self.absence_started = None;
            } else {
                grace_remaining = Some(grace_period.saturating_sub(elapsed));
            }
        }
        let timeout = minimum_timeout(
            grace_remaining,
            next_cli_activation,
            self.idle_interval,
        );
        ScanResponse { publish, timeout: Some(timeout) }
    }
}

/// What the watcher's thread has just done.
#[derive(Debug)]
pub enum WatchEvent {
    /// It has emptied the queue of commands.
    Commands { waiting: Vec<WatcherCommand>, disconnected: bool },
    /// It has looked at the processes.
    Scanned(PresenceScan),
    /// It could not look at them.
    ScanFailed(AppError),
    /// It has waited; the result of the wait, and the error behind it.
    Waited { result: u32, last_error: u32 },
    /// It has paused for a command.
    Paused(CommandWait),
}

/// What the watcher's thread does next.
#[derive(Debug)]
pub enum WatchStep {
    End,
    /// Empty the queue of commands.
    TakeCommands,
    /// Look at the processes, after looking up the command line's path where that is due.
    Scan { refreshes_cli_path: bool },
    /// Log this, if anything, then wait for a command, but no longer than this.
    Pause { log: Option<String>, timeout: Duration },
    /// Publish this, if anything, then wait for one of these processes to end.
    Wait { publish: Option<bool>, processes: Vec<usize>, millis: u32 },
}

/// The processes whose end is worth a new scan: those that make Codex present, or those that
/// may soon.
pub open spec fn watched(scan: PresenceScan) -> Seq<usize> {
    if scan.active@.len() > 0 {
        scan.active@
    } else {
        scan.pending_cli@
    }
}

/// A line for the log.
fn log_line(headline: &str, error: &AppError) -> (line: String)
    ensures
        line@ == headline@ + error.reason(),
{
    let mut line = headline.to_owned();
    line.append(error.message());
    line
}

impl Watcher {
    /// Whether a failed scan at `now` is worth a line in the log.
    pub open spec fn error_is_due(self, now: Instant) -> bool {
        self.last_error_log is Some ==> now.since(self.last_error_log->0) >= millis_nanos(
            ERROR_LOG_MILLIS,
        )
    }

    /// What follows the commands: a scan, unless one of them ends the watcher.
    pub open spec fn after_commands(
        self,
        waiting: Seq<WatcherCommand>,
        disconnected: bool,
        now: Instant,
    ) -> Watcher {
        if !disconnected && !waiting.contains(WatcherCommand::Shutdown) && now.nanos
            >= self.next_cli_path_refresh.nanos {
            Watcher {
                next_cli_path_refresh: Instant {
                    nanos: (now.nanos + millis_nanos(CLI_PATH_REFRESH_MILLIS)) as u128,
                },
                ..self
            }
        } else {
            self
        }
    }

    /// One turn of the watcher: commands, a scan, a wait for something to change, and over again;
    /// a failure pauses it instead.
    pub fn watcher_loop(&mut self, event: WatchEvent, now: Instant) -> (step: WatchStep)
        requires
            old(self).well_formed(),
            now.nanos + millis_nanos(CLI_PATH_REFRESH_MILLIS) <= u128::MAX,
        ensures
            final(self).well_formed(),
            match event {
                WatchEvent::Commands { waiting, disconnected } => {
                    &&& step == (if disconnected || waiting@.contains(WatcherCommand::Shutdown) {
                        WatchStep::End
                    } else {
                        WatchStep::Scan {
                            refreshes_cli_path: now.nanos >= old(self).next_cli_path_refresh.nanos,
                        }
                    })
                    &&& *final(self) == old(self).after_commands(waiting@, disconnected, now)
                },
                WatchEvent::Scanned(scan) => {
                    let present = scan.active@.len() > 0;
                    let response = old(self).response(present, scan.next_cli_activation, now);
                    let plan = planned_wait(
                        watched(scan).len() as usize,
                        response.timeout,
                        old(self).idle_interval,
                    );
                    &&& step matches WatchStep::Wait { publish, processes, millis }
                    &&& publish == response.publish
                    &&& processes@ == (if plan.wait_on_processes {
                        watched(scan)
                    } else {
                        Seq::empty()
                    })
                    &&& millis == plan.millis
                    &&& *final(self) == old(self).after_scan(present, now)
                },
                WatchEvent::ScanFailed(error) => {
                    let logs = old(self).error_is_due(now);
                    &&& step matches WatchStep::Pause { log, timeout }
                    &&& timeout == old(self).idle_interval
                    &&& log is Some <==> logs
                    &&& logs ==> log->0@ == "Codex 进程扫描失败："@ + error.reason()
                    &&& *final(self) == (Watcher {
                        last_error_log: if logs {
                            Some(now)
                        } else {
                            old(self).last_error_log
                        },
                        ..*old(self)
                    })
                },
                WatchEvent::Waited { result, last_error } => {
                    &&& result != WAIT_FAILED ==> step is TakeCommands
                    &&& result == WAIT_FAILED ==> (step matches WatchStep::Pause { log, timeout }
                        && timeout == old(self).idle_interval && log is Some && log->0@ == "等待 Codex 进程状态失败："@ + system::with_status(
                        "WaitForMultipleObjects 返回错误 "@,
                        last_error,
                    ))
                    &&& *final(self) == *old(self)
                },
                WatchEvent::Paused(received) => {
                    &&& step == (if received == CommandWait::Disconnected || received
                        == CommandWait::Received(WatcherCommand::Shutdown) {
                        WatchStep::End
                    } else {
                        WatchStep::TakeCommands
                    })
                    &&& *final(self) == *old(self)
                },
            },
    {
        match event {
            WatchEvent::Commands { waiting, disconnected } => {
                if should_shutdown(waiting.as_slice(), disconnected) {
                    return WatchStep::End;
                }
                let due = self.refreshes_cli_path(now);
                WatchStep::Scan { refreshes_cli_path: due }
            },
            WatchEvent::Scanned(scan) => {
                let present = scan.is_present();
                let response = self.observe(present, scan.next_cli_activation, now);
                let candidates = if present {
                    scan.active
                } else {
                    scan.pending_cli
                };
                let plan = wait_until_rescan(
                    candidates.len(),
                    response.timeout,
                    self.idle_interval,
                );
                WatchStep::Wait {
                    publish: response.publish,
                    processes: if plan.wait_on_processes {
                        candidates
                    } else {
                        Vec::new()
                    },
                    millis: plan.millis,
                }
            },
            WatchEvent::ScanFailed(error) => {
                let log = if self.logs_error(now) {
                    Some(log_line("Codex 进程扫描失败：", &error))
                } else {
                    None
                };
                WatchStep::Pause { log, timeout: self.idle_interval }
            },
            WatchEvent::Waited { result, last_error } => match wait_for_handles(
                result,
                last_error,
            ) {
                Ok(()) => WatchStep::TakeCommands,
                Err(error) => WatchStep::Pause {
                    log: Some(log_line("等待 Codex 进程状态失败：", &error)),
                    timeout: self.idle_interval,
                },
            },
            WatchEvent::Paused(received) => {
                if wait_after_scan_error(received) {
                    WatchStep::End
                } else {
                    WatchStep::TakeCommands
                }
            },
        }
    }
}

/// Presence and absence are published in turn, never the same twice in a row; an absence only
/// after it has lasted the whole grace period, and a process seen in between starts it over.
pub proof fn law_presence_is_published_in_turn(
    watcher: Watcher,
    present: bool,
    next_cli_activation: Option<Duration>,
    now: Instant,
)
    requires
        watcher.well_formed(),
    ensures
        ({
            let response = watcher.response(present, next_cli_activation, now);
            let after = watcher.after_scan(present, now);
            &&& response.publish is Some ==> response.publish->0 != watcher.published_presence
                && response.publish->0 == after.published_presence
            &&& response.publish is None ==> after.published_presence == watcher.published_presence
            &&& response.publish == Some(true) ==> present
            &&& response.publish == Some(false) ==> !present && watcher.absence_started is Some
                && now.since(watcher.absence_started->0) >= millis_nanos(EXIT_GRACE_MILLIS)
            &&& present ==> after.absence_started is None
        }),
{
}

/// While nothing runs the next scan is never further away than the idle interval.
pub proof fn law_absence_is_rescanned_soon(
    watcher: Watcher,
    next_cli_activation: Option<Duration>,
    now: Instant,
)
    ensures
        ({
            let timeout = watcher.response(false, next_cli_activation, now).timeout;
            &&& timeout is Some
            &&& timeout->0.nanos <= watcher.idle_interval.nanos
            &&& next_cli_activation is Some ==> timeout->0.nanos <= next_cli_activation->0.nanos
        }),
{
}

/// What makes Codex present is Codex: every process that a scan lists as active either belongs to
/// the application's package family or is the command line's program file, started by someone else
/// at least 800 milliseconds ago.
pub proof fn law_only_codex_makes_codex_present(
    context: &ScanContext,
    processes: &[ProcessFacts],
    scan: PresenceScan,
    k: int,
)
    requires
        call_ensures(scan_codex_processes, (context, processes), scan),
        0 <= k < scan.active@.len(),
    ensures
        scan.active@[k] < processes@.len(),
        ({
            let process = processes@[scan.active@[k] as int];
            ||| {
                &&& process.package_family is Some
                &&& process.package_family->0@ == "OpenAI.Codex_2p2nqsd0c76g0"@
                &&& text::agree_but_for_case(process.executable_name@, "ChatGPT.exe"@)
            }
            ||| {
                &&& process.image_path is Some
                &&& context.cli_path is Some
                &&& process.image_path->0@ == context.cli_path->0@
                &&& text::agree_but_for_case(process.executable_name@, "codex.exe"@)
                &&& process.parent_pid != context.own_pid
                &&& process.age is Some
                &&& process.age->0.nanos >= 800_000_000
            }
        }),
{
    let n = processes@.len() as int;
    assert(processes@.len() == processes.len());
    let apps = |i: int| counts_as_app(*context, processes@, i);
    let clis = |i: int| counts_as_cli(*context, processes@, i);
    let i = scan.active@[k];
    let process = processes@[i as int];
    text::lemma_lowered_agree(process.executable_name@, "ChatGPT.exe"@);
    text::lemma_lowered_agree(process.executable_name@, "codex.exe"@);
    lemma_indices_where(n, apps, i);
    lemma_indices_where(n, clis, i);
    if k < indices_where(n, apps).len() {
        assert(indices_where(n, apps)[k] == i);
        assert(indices_where(n, apps).contains(i));
    } else {
        assert(indices_where(n, clis)[k - indices_where(n, apps).len()] == i);
        assert(indices_where(n, clis).contains(i));
    }
}

/// Where no process belongs to the application's package family and none is the command line's
/// program file, a scan finds nothing, and nothing to wait for either.
pub proof fn law_without_codex_nothing_is_present(
    context: &ScanContext,
    processes: &[ProcessFacts],
    scan: PresenceScan,
    present: bool,
)
    requires
        call_ensures(scan_codex_processes, (context, processes), scan),
        call_ensures(PresenceScan::is_present, (&scan,), present),
        forall|i: int|
            #![trigger processes@[i]]
            0 <= i < processes@.len() ==> {
                let process = processes@[i];
                &&& process.package_family is Some ==> process.package_family->0@
                    != "OpenAI.Codex_2p2nqsd0c76g0"@
                &&& process.image_path is Some && context.cli_path is Some
                    ==> process.image_path->0@ != context.cli_path->0@
            },
    ensures
        !present,
        scan.active@.len() == 0,
        scan.pending_cli@.len() == 0,
        scan.next_cli_activation is None,
{
    if scan.active@.len() > 0 {
        law_only_codex_makes_codex_present(context, processes, scan, 0);
    }
    let n = processes@.len() as int;
    assert(processes@.len() == processes.len());
    let young = |i: int| is_young_cli(*context, processes@, i);
    if scan.pending_cli@.len() > 0 {
        let i = scan.pending_cli@[0];
        assert(scan.pending_cli@.contains(i));
        lemma_indices_where(n, young, i);
        assert(is_young_cli(*context, processes@, i as int));
        assert(processes@[i as int].image_path is Some);
    }
    lemma_no_activation(*context, processes@, n);
}

proof fn lemma_no_activation(context: ScanContext, processes: Seq<ProcessFacts>, n: int)
    requires
        0 <= n <= processes.len(),
        forall|i: int|
            #![trigger processes[i]]
            0 <= i < processes.len() && processes[i].image_path is Some && context.cli_path is Some
                ==> processes[i].image_path->0@ != context.cli_path->0@,
    ensures
        soonest_activation(context, processes, n) is None,
    decreases n,
{
    if n > 0 {
        assert(processes[n - 1].image_path is Some ==> true);
        lemma_no_activation(context, processes, n - 1);
    }
}

/// A part of the application whose parent is no part of it makes Codex present, and where no two
/// processes share a number, only such a part does.
pub proof fn law_roots_of_the_application_count(
    context: &ScanContext,
    processes: &[ProcessFacts],
    scan: PresenceScan,
    i: usize,
)
    requires
        call_ensures(scan_codex_processes, (context, processes), scan),
        i < processes@.len(),
        is_part_of_the_application(processes@[i as int]),
    ensures
        (forall|j: int|
            #![trigger processes@[j]]
            0 <= j < processes@.len() && is_part_of_the_application(processes@[j])
                ==> processes@[j].pid != processes@[i as int].parent_pid)
            ==> scan.active@.contains(i),
        scan.active@.contains(i) && (forall|a: int, b: int|
            #![trigger processes@[a], processes@[b]]
            0 <= a < b < processes@.len() ==> processes@[a].pid != processes@[b].pid) ==> (forall|
            j: int,
        |
            #![trigger processes@[j]]
            0 <= j < processes@.len() && is_part_of_the_application(processes@[j])
                ==> processes@[j].pid != processes@[i as int].parent_pid),
{
    let n = processes@.len() as int;
    assert(processes@.len() == processes.len());
    let parts = |j: int| context.is_app(processes@[j]);
    let roots = |j: int| counts_as_app(*context, processes@, j);
    let clis = |j: int| counts_as_cli(*context, processes@, j);
    let listed = indices_where(n, parts);
    let relations = relations_of(*context, processes@);
    let me = processes@[i as int];
    assert(relations == listed.map_values(
        |i: usize| (processes@[i as int].pid, processes@[i as int].parent_pid),
    ));
    assert forall|j: int| 0 <= j < n implies parts(j) == is_part_of_the_application(
        #[trigger] processes@[j],
    ) by {
        text::lemma_lowered_agree(processes@[j].executable_name@, "ChatGPT.exe"@);
        text::lemma_lowered_agree(processes@[j].executable_name@, "codex.exe"@);
    }
    lemma_indices_where(n, parts, i);
    lemma_indices_where(n, roots, i);
    lemma_indices_where(n, clis, i);
    assert(parts(i as int));
    let k = choose|k: int| 0 <= k < listed.len() && listed[k] == i;
    assert(relations[k] == (me.pid, me.parent_pid));
    if forall|j: int|
        #![trigger processes@[j]]
        0 <= j < n && is_part_of_the_application(processes@[j]) ==> processes@[j].pid
            != me.parent_pid {
        if has_pid(relations, me.parent_pid) {
            let r = choose|r: int|
                #![trigger relations[r]]
                0 <= r < relations.len() && relations[r].0 == me.parent_pid;
            let j = listed[r];
            assert(listed.contains(j));
            lemma_indices_where(n, parts, j);
            assert(parts(j as int));
            assert(relations[r].0 == processes@[j as int].pid);
        }
        assert(roots(i as int));
        let all = indices_where(n, roots) + indices_where(n, clis);
        let at = choose|at: int|
            0 <= at < indices_where(n, roots).len() && indices_where(n, roots)[at] == i;
        assert(all[at] == i);
    }
    if scan.active@.contains(i) && (forall|a: int, b: int|
        #![trigger processes@[a], processes@[b]]
        0 <= a < b < n ==> processes@[a].pid != processes@[b].pid) {
        let at = choose|at: int| 0 <= at < scan.active@.len() && scan.active@[at] == i;
        let first = indices_where(n, roots);
        if at < first.len() {
            assert(first[at] == i);
            assert(first.contains(i));
        } else {
            assert(indices_where(n, clis)[at - first.len()] == i);
            assert(indices_where(n, clis).contains(i));
            lemma_names_differ();
            text::lemma_lowered_agree(me.executable_name@, "codex.exe"@);
        }
        assert(is_root_pid(relations, me.pid));
        let r = choose|r: int|
            #![trigger relations[r]]
            0 <= r < relations.len() && relations[r].0 == me.pid && !has_pid(
                relations,
                relations[r].1,
            );
        let own = listed[r];
        assert(listed.contains(own));
        lemma_indices_where(n, parts, own);
        assert(processes@[own as int].pid == me.pid);
        assert(own == i);
        assert(relations[r].1 == me.parent_pid);
        assert forall|j: int|
            #![trigger processes@[j]]
            0 <= j < n && is_part_of_the_application(processes@[j]) implies processes@[j].pid
            != me.parent_pid by {
            lemma_indices_where(n, parts, j as usize);
            assert(parts(j));
            let q = choose|q: int| 0 <= q < listed.len() && listed[q] == j as usize;
            assert(relations[q].0 == processes@[j].pid);
        }
    }
}

/// A part of the Codex application, by its name and its package.
pub open spec fn is_part_of_the_application(process: ProcessFacts) -> bool {
    &&& text::agree_but_for_case(process.executable_name@, "ChatGPT.exe"@)
    &&& process.package_family is Some
    &&& process.package_family->0@ == "OpenAI.Codex_2p2nqsd0c76g0"@
}

/// The Codex command line, by its name and its path, unless this program started it.
pub open spec fn is_the_command_line(context: ScanContext, process: ProcessFacts) -> bool {
    &&& text::agree_but_for_case(process.executable_name@, "codex.exe"@)
    &&& process.parent_pid != context.own_pid
    &&& process.image_path is Some
    &&& context.cli_path is Some
    &&& process.image_path->0@ == context.cli_path->0@
}

proof fn lemma_names_differ()
    ensures
        text::lowered("ChatGPT.exe"@) != text::lowered("codex.exe"@),
{
    reveal_strlit("ChatGPT.exe");
    reveal_strlit("codex.exe");
    assert(text::lowered("ChatGPT.exe"@).len() == 11);
    assert(text::lowered("codex.exe"@).len() == 9);
}

/// A command line counts once it has run for 800 milliseconds. Until then it is watched, and the
/// next look is due no later than it is old enough.
pub proof fn law_a_command_line_counts_after_800_milliseconds(
    context: &ScanContext,
    processes: &[ProcessFacts],
    scan: PresenceScan,
    i: usize,
)
    requires
        call_ensures(scan_codex_processes, (context, processes), scan),
        i < processes@.len(),
        is_the_command_line(*context, processes@[i as int]),
    ensures
        ({
            let age = match processes@[i as int].age {
                Some(age) => age.nanos as int,
                None => 0,
            };
            &&& scan.active@.contains(i) <==> age >= 800_000_000
            &&& scan.pending_cli@.contains(i) <==> age < 800_000_000
            &&& age < 800_000_000 ==> scan.next_cli_activation is Some
                && scan.next_cli_activation->0.nanos <= 800_000_000 - age
        }),
{
    let n = processes@.len() as int;
    assert(processes@.len() == processes.len());
    let roots = |j: int| counts_as_app(*context, processes@, j);
    let clis = |j: int| counts_as_cli(*context, processes@, j);
    let young = |j: int| is_young_cli(*context, processes@, j);
    let me = processes@[i as int];
    lemma_names_differ();
    text::lemma_lowered_agree(me.executable_name@, "codex.exe"@);
    text::lemma_lowered_agree(me.executable_name@, "ChatGPT.exe"@);
    lemma_indices_where(n, roots, i);
    lemma_indices_where(n, clis, i);
    lemma_indices_where(n, young, i);
    let all = indices_where(n, roots) + indices_where(n, clis);
    if scan.active@.contains(i) {
        let at = choose|at: int| 0 <= at < all.len() && all[at] == i;
        if at < indices_where(n, roots).len() {
            assert(indices_where(n, roots)[at] == i);
            assert(indices_where(n, roots).contains(i));
        } else {
            assert(indices_where(n, clis)[at - indices_where(n, roots).len()] == i);
            assert(indices_where(n, clis).contains(i));
        }
    }
    if clis(i as int) {
        let at = choose|at: int|
            0 <= at < indices_where(n, clis).len() && indices_where(n, clis)[at] == i;
        assert(all[indices_where(n, roots).len() + at] == i);
    }
    if young(i as int) {
        lemma_soonest_activation(*context, processes@, n, i as int);
    }
}

proof fn lemma_soonest_activation(
    context: ScanContext,
    processes: Seq<ProcessFacts>,
    n: int,
    i: int,
)
    requires
        0 <= i < n <= processes.len(),
        is_young_cli(context, processes, i),
        age_of(processes[i]) >= 0,
    ensures
        soonest_activation(context, processes, n) is Some,
        soonest_activation(context, processes, n)->0.nanos <= 800_000_000 - age_of(processes[i]),
    decreases n,
{
    if i < n - 1 {
        lemma_soonest_activation(context, processes, n - 1, i);
    }
}

/// The next look is due for the sake of a young command line: the one that is old enough first.
pub proof fn law_the_next_look_is_for_a_young_command_line(
    context: &ScanContext,
    processes: &[ProcessFacts],
    scan: PresenceScan,
)
    requires
        call_ensures(scan_codex_processes, (context, processes), scan),
        scan.next_cli_activation is Some,
    ensures
        exists|i: int|
            #![trigger processes@[i]]
            {
                &&& 0 <= i < processes@.len()
                &&& is_the_command_line(*context, processes@[i])
                &&& scan.next_cli_activation->0.nanos + (match processes@[i].age {
                    Some(age) => age.nanos as int,
                    None => 0,
                }) == 800_000_000
            },
{
    let i = lemma_whose_activation(*context, processes@, processes@.len() as int);
    text::lemma_lowered_agree(processes@[i].executable_name@, "codex.exe"@);
}

proof fn lemma_whose_activation(
    context: ScanContext,
    processes: Seq<ProcessFacts>,
    n: int,
) -> (i: int)
    requires
        0 <= n <= processes.len(),
        soonest_activation(context, processes, n) is Some,
    ensures
        0 <= i < n,
        is_young_cli(context, processes, i),
        soonest_activation(context, processes, n)->0.nanos == 800_000_000 - age_of(processes[i]),
    decreases n,
{
    let before = soonest_activation(context, processes, n - 1);
    if is_young_cli(context, processes, n - 1) {
        let left = 800_000_000 - age_of(processes[n - 1]);
        if before is Some && before->0.nanos <= left {
            lemma_whose_activation(context, processes, n - 1)
        } else {
            n - 1
        }
    } else {
        lemma_whose_activation(context, processes, n - 1)
    }
}

/// Only the application's executable is asked for its package and only a command line that someone
/// else started for its path.
pub proof fn law_only_candidates_are_probed(
    executable_name: &str,
    parent_pid: u32,
    own_pid: u32,
    cli_is_there: bool,
    probe: Probe,
)
    requires
        call_ensures(probe_for, (executable_name, parent_pid, own_pid, cli_is_there), probe),
    ensures
        probe == Probe::PackageFamily <==> text::agree_but_for_case(
            executable_name@,
            "ChatGPT.exe"@,
        ),
        probe == Probe::ImagePath <==> cli_is_there && parent_pid != own_pid
            && text::agree_but_for_case(executable_name@, "codex.exe"@),
{
    lemma_names_differ();
    text::lemma_lowered_agree(executable_name@, "ChatGPT.exe"@);
    text::lemma_lowered_agree(executable_name@, "codex.exe"@);
}

/// Presence is published as soon as it is found and absence once it has lasted two seconds; a
/// change is published once.
pub proof fn law_absence_is_published_after_two_seconds(
    watcher: &mut Watcher,
    present: bool,
    next_cli_activation: Option<Duration>,
    now: Instant,
    response: ScanResponse,
)
    requires
        old(watcher).well_formed(),
        call_ensures(Watcher::observe, (watcher, present, next_cli_activation, now), response),
    ensures
        response.publish == Some(true) <==> present && !old(watcher).published_presence,
        response.publish == Some(false) <==> {
            &&& !present
            &&& old(watcher).published_presence
            &&& old(watcher).absence_started is Some
            &&& now.nanos - old(watcher).absence_started->0.nanos >= 2_000_000_000
        },
        final(watcher).published_presence == (match response.publish {
            Some(published) => published,
            None => old(watcher).published_presence,
        }),
        final(watcher).absence_started == (if present || !final(watcher).published_presence {
            None
        } else if old(watcher).absence_started is Some {
            old(watcher).absence_started
        } else {
            Some(now)
        }),
        final(watcher).idle_interval == old(watcher).idle_interval,
        final(watcher).next_cli_path_refresh == old(watcher).next_cli_path_refresh,
        final(watcher).last_error_log == old(watcher).last_error_log,
{
}

/// While Codex is present nothing but the end of a process calls for another look. Otherwise the
/// next look is due at the end of the grace period, when a command line is old enough or after the
/// idle interval, whichever comes first.
pub proof fn law_the_next_look_comes_in_time(
    watcher: &mut Watcher,
    present: bool,
    next_cli_activation: Option<Duration>,
    now: Instant,
    response: ScanResponse,
)
    requires
        old(watcher).well_formed(),
        old(watcher).absence_started is Some ==> old(watcher).absence_started->0.nanos <= now.nanos,
        call_ensures(Watcher::observe, (watcher, present, next_cli_activation, now), response),
    ensures
        response.timeout is None <==> present,
        !present ==> ({
            let timeout = response.timeout->0.nanos;
            let grace_ends = if final(watcher).absence_started is Some {
                Some(2_000_000_000 - (now.nanos - final(watcher).absence_started->0.nanos))
            } else {
                None
            };
            &&& timeout <= old(watcher).idle_interval.nanos
            &&& next_cli_activation is Some ==> timeout <= next_cli_activation->0.nanos
            &&& grace_ends is Some ==> timeout <= grace_ends->0
            &&& timeout == old(watcher).idle_interval.nanos || (next_cli_activation is Some
                && timeout == next_cli_activation->0.nanos) || (grace_ends is Some && timeout
                == grace_ends->0)
        }),
{
}

/// The shortest of the spans is none longer than any, and one of them.
pub proof fn law_the_shortest_span_wins(
    first: Option<Duration>,
    second: Option<Duration>,
    fallback: Duration,
    timeout: Duration,
)
    requires
        call_ensures(minimum_timeout, (first, second, fallback), timeout),
    ensures
        timeout.nanos <= fallback.nanos,
        first is Some ==> timeout.nanos <= first->0.nanos,
        second is Some ==> timeout.nanos <= second->0.nanos,
        timeout == fallback || Some(timeout) == first || Some(timeout) == second,
{
}

/// A wait lasts the whole milliseconds of its span, but at least one; a span that has no number in
/// milliseconds is cut off just before the one that means for ever.
pub proof fn law_waits_last_their_whole_milliseconds(duration: Duration, millis: u32)
    requires
        call_ensures(duration_to_wait_millis, (duration,), millis),
    ensures
        millis >= 1,
        duration.nanos < 1_000_000 ==> millis == 1,
        1_000_000 <= duration.nanos < 4_294_967_296_000_000 ==> millis * 1_000_000 <= duration.nanos
            < (millis + 1) * 1_000_000,
        duration.nanos >= 4_294_967_296_000_000 ==> millis == 4_294_967_294,
{
}

/// Up to sixty-three processes are waited for, without limit where none is asked for. More are left
/// alone, and the wait is then no longer than the idle interval.
pub proof fn law_too_many_processes_are_not_waited_for(
    processes: usize,
    requested: Option<Duration>,
    idle: Duration,
    plan: WaitPlan,
    requested_millis: u32,
    idle_millis: u32,
)
    requires
        call_ensures(wait_until_rescan, (processes, requested, idle), plan),
        requested is Some ==> call_ensures(
            duration_to_wait_millis,
            (requested->0,),
            requested_millis,
        ),
        call_ensures(duration_to_wait_millis, (idle,), idle_millis),
    ensures
        plan.wait_on_processes <==> processes <= 63,
        processes <= 63 && requested is None ==> plan.millis == 0xffff_ffff,
        processes <= 63 && requested is Some ==> plan.millis == requested_millis,
        processes > 63 && requested is None ==> plan.millis == idle_millis,
        processes > 63 && requested is Some && requested->0.nanos <= idle.nanos ==> plan.millis
            == requested_millis,
        processes > 63 && requested is Some && requested->0.nanos >= idle.nanos ==> plan.millis
            == idle_millis,
{
}

/// Comparable paths hold no slash, and two paths that differ only in the kind of their slashes or
/// in the verbatim prefix are brought into one form.
pub proof fn law_comparable_paths(lowered: &str, normal: String)
    requires
        call_ensures(normalize_lowered, (lowered,), normal),
    ensures
        !normal@.contains('/'),
        normal@.len() == lowered@.len() || normal@.len() + 4 == lowered@.len(),
        forall|i: int|
            #![trigger normal@[i]]
            0 <= i < normal@.len() ==> ({
                let from = lowered@[i + (lowered@.len() - normal@.len())];
                normal@[i] == (if from == '/' {
                    '\\'
                } else {
                    from
                })
            }),
        normal@.len() + 4 == lowered@.len() <==> ({
            let slash = |c: char| c == '/' || c == '\\';
            &&& lowered@.len() >= 4
            &&& slash(lowered@[0])
            &&& slash(lowered@[1])
            &&& lowered@[2] == '?'
            &&& slash(lowered@[3])
        }),
{
    reveal_strlit("\\\\?\\");
    let path = lowered@.map_values(
        |c: char|
            if c == '/' {
                '\\'
            } else {
                c
            },
    );
    let prefix = "\\\\?\\"@;
    if path.len() >= 4 && path.take(4) == prefix {
        assert(path.take(4)[0] == prefix[0] && path.take(4)[1] == prefix[1]);
        assert(path.take(4)[2] == prefix[2] && path.take(4)[3] == prefix[3]);
        assert(normal@ == path.skip(4));
    } else {
        assert(normal@ == path);
        if path.len() >= 4 && path[0] == '\\' && path[1] == '\\' && path[2] == '?' && path[3]
            == '\\' {
            assert(path.take(4) =~= prefix);
        }
    }
}

/// A path is looked at in lower case, and a path that was found is kept as it was found.
pub proof fn law_found_paths_are_kept(
    found: Option<(&str, &str)>,
    cli: Option<ResolvedCliPath>,
    normal: String,
)
    requires
        call_ensures(resolve_cli_path, (found,), cli),
        found is Some ==> call_ensures(normalize_path, ((found->0).1,), normal),
    ensures
        found is None <==> cli is None,
        found is Some ==> cli->0.path@ == (found->0).0@ && cli->0.normalized@ == normal@,
{
}

/// A wide string ends at its first zero, and nothing behind that matters.
pub proof fn law_wide_strings_end_at_the_first_zero(
    value: &[u16],
    other: &[u16],
    shown: String,
    other_shown: String,
    end: int,
)
    requires
        call_ensures(wide_slice_to_string, (value,), shown),
        call_ensures(wide_slice_to_string, (other,), other_shown),
        0 <= end < value@.len(),
        value@[end] == 0,
        forall|i: int| #![trigger value@[i]] 0 <= i < end ==> value@[i] != 0,
        other@ == value@.take(end),
    ensures
        shown@ == other_shown@,
        shown@ == text::from_utf16(value@.take(end)),
{
    lemma_before_nul(value@, end);
    lemma_before_nul(other@, end);
    assert(other@.take(end) =~= value@.take(end));
}

/// A process has run since its creation; the hundreds of nanoseconds between the two readings of
/// the clock are its age.
pub proof fn law_age_is_the_time_since_creation(now: FileTime, creation: FileTime, age: Duration)
    requires
        call_ensures(process_age, (now, creation), age),
    ensures
        ({
            let at = |time: FileTime| time.high * 4_294_967_296 + time.low;
            &&& at(now) <= at(creation) ==> age.nanos == 0
            &&& at(now) > at(creation) && (at(now) - at(creation)) * 100
                <= 18_446_744_073_709_551_615 ==> age.nanos == (at(now) - at(creation)) * 100
            &&& (at(now) - at(creation)) * 100 > 18_446_744_073_709_551_615 ==> age.nanos
                == 18_446_744_073_709_551_615
        }),
{
}

/// The command line's path is looked up again every thirty seconds, and a failing scan logged at
/// most once a minute.
pub proof fn law_lookups_and_log_lines_keep_their_distance(
    watcher: &mut Watcher,
    logger: &mut Watcher,
    now: Instant,
    due: bool,
    logs: bool,
)
    requires
        now.nanos + 30_000_000_000 <= u128::MAX,
        call_ensures(Watcher::refreshes_cli_path, (watcher, now), due),
        call_ensures(Watcher::logs_error, (logger, now), logs),
    ensures
        due <==> old(watcher).next_cli_path_refresh.nanos <= now.nanos,
        due ==> final(watcher).next_cli_path_refresh.nanos == now.nanos + 30_000_000_000,
        !due ==> *final(watcher) == *old(watcher),
        logs <==> old(logger).last_error_log is None || now.nanos
            - old(logger).last_error_log->0.nanos >= 60_000_000_000,
        logs ==> final(logger).last_error_log == Some(now),
        !logs ==> *final(logger) == *old(logger),
{
}

/// A listing has ended well when there are no more processes, a package is absent or has a length,
/// and a family and a wait are good unless the system says otherwise.
pub proof fn law_system_answers_are_told_apart(
    listed: bool,
    status: u32,
    length: u32,
    buffer: &[u16],
    end: Result<(), AppError>,
    units: Result<Option<u32>, AppError>,
    family: Result<String, AppError>,
    ended: Result<(), AppError>,
)
    requires
        call_ensures(enumerate_processes, (listed, status), end),
        call_ensures(package_family_length, (status, length), units),
        call_ensures(process_package_family, (status, buffer), family),
        call_ensures(wait_for_handles, (status, status), ended),
    ensures
        end is Ok <==> status == 18,
        units is Err <==> status != 15_700 && !(status == 122 && length > 0),
        units is Ok && status == 15_700 ==> units->Ok_0 is None,
        units is Ok && status == 122 ==> units->Ok_0 == Some(length),
        family is Ok <==> status == 0,
        ended is Err <==> status == 0xffff_ffff,
{
}

/// The watcher ends on the word or when nobody is left to give it, and on nothing else.
pub proof fn law_the_watcher_ends_when_told(
    waiting: &[WatcherCommand],
    disconnected: bool,
    received: CommandWait,
    ends: bool,
    ends_after: bool,
)
    requires
        call_ensures(should_shutdown, (waiting, disconnected), ends),
        call_ensures(wait_after_scan_error, (received,), ends_after),
    ensures
        ends <==> disconnected || exists|i: int|
            #![trigger waiting@[i]]
            0 <= i < waiting@.len() && waiting@[i] is Shutdown,
        ends_after <==> received is Disconnected || (received is Received && received->0
            is Shutdown),
{
    if exists|i: int| #![trigger waiting@[i]] 0 <= i < waiting@.len() && waiting@[i] is Shutdown {
        let i = choose|i: int|
            #![trigger waiting@[i]]
            0 <= i < waiting@.len() && waiting@[i] is Shutdown;
        assert(waiting@[i] == WatcherCommand::Shutdown);
    }
}

/// One turn of the watcher passes on what the scan and the waiting rules say: what is published,
/// which processes are waited for, and for how long.
pub proof fn law_a_turn_follows_the_scan(
    watcher: &mut Watcher,
    scan: PresenceScan,
    now: Instant,
    step: WatchStep,
    observer: &mut Watcher,
    response: ScanResponse,
    plan: WaitPlan,
    processes: usize,
)
    requires
        old(watcher).well_formed(),
        *old(observer) == *old(watcher),
        call_ensures(Watcher::watcher_loop, (watcher, WatchEvent::Scanned(scan), now), step),
        call_ensures(
            Watcher::observe,
            (observer, scan.active@.len() > 0, scan.next_cli_activation, now),
            response,
        ),
        processes == (if scan.active@.len() > 0 {
            scan.active@.len()
        } else {
            scan.pending_cli@.len()
        }),
        call_ensures(
            wait_until_rescan,
            (processes, response.timeout, old(watcher).idle_interval),
            plan,
        ),
    ensures
        *final(watcher) == *final(observer),
        step is Wait,
        step->publish == response.publish,
        step->millis == plan.millis,
        processes > 63 ==> step->processes@.len() == 0,
        processes <= 63 && scan.active@.len() > 0 ==> step->processes@ == scan.active@,
        processes <= 63 && scan.active@.len() == 0 ==> step->processes@ == scan.pending_cli@,
{
}

/// The application's package family is known by its exact name, a command line by its name in any
/// case and by not having been started here.
pub proof fn law_codex_is_known_by_name(
    family: &str,
    is_codex: bool,
    executable_name: &str,
    parent_pid: u32,
    own_pid: u32,
    candidate: bool,
)
    requires
        call_ensures(is_codex_app_family, (family,), is_codex),
        call_ensures(is_external_cli_candidate, (executable_name, parent_pid, own_pid), candidate),
    ensures
        is_codex <==> family@ == "OpenAI.Codex_2p2nqsd0c76g0"@,
        candidate <==> parent_pid != own_pid && text::agree_but_for_case(
            executable_name@,
            "codex.exe"@,
        ),
{
    text::lemma_lowered_agree(executable_name@, "codex.exe"@);
}

/// The roots are exactly the processes of which some entry has a parent that is none of them.
pub proof fn law_roots_are_found_by_their_parents(
    relations: &[(u32, u32)],
    roots: HashSet<u32>,
    pid: u32,
)
    requires
        call_ensures(app_root_pids, (relations,), roots),
    ensures
        roots@.contains(pid) <==> exists|i: int|
            #![trigger relations@[i]]
            0 <= i < relations@.len() && relations@[i].0 == pid && forall|j: int|
                #![trigger relations@[j]]
                0 <= j < relations@.len() ==> relations@[j].0 != relations@[i].1,
{
    let all = relations@;
    if roots@.contains(pid) {
        assert(is_root_pid(all, pid));
        law_roots_have_no_parent_here(all, pid);
    } else {
        assert(!is_root_pid(all, pid));
        assert forall|i: int|
            #![trigger all[i]]
            0 <= i < all.len() && all[i].0 == pid implies exists|j: int|
                #![trigger all[j]]
                0 <= j < all.len() && all[j].0 == all[i].1 by {
            assert(has_pid(all, all[i].1));
        }
    }
}

/// A new watcher has published nothing and looks the command line's path up at once.
pub proof fn law_a_new_watcher_knows_nothing(
    idle_interval: Duration,
    now: Instant,
    watcher: Watcher,
)
    requires
        call_ensures(Watcher::new, (idle_interval, now), watcher),
    ensures
        watcher.idle_interval == idle_interval,
        !watcher.published_presence,
        watcher.absence_started is None,
        watcher.next_cli_path_refresh == now,
        watcher.last_error_log is None,
{
}

/// The watcher takes turns: after commands it scans unless told to end, and looks the path up where
/// that is due; after a failed scan or wait it pauses for the idle interval; after a wait or a
/// pause it takes commands again.
pub proof fn law_the_watcher_takes_turns(
    watcher: &mut Watcher,
    event: WatchEvent,
    now: Instant,
    step: WatchStep,
)
    requires
        old(watcher).well_formed(),
        now.nanos + 30_000_000_000 <= u128::MAX,
        call_ensures(Watcher::watcher_loop, (watcher, event, now), step),
    ensures
        event is Commands ==> {
            let ends = event->disconnected || exists|i: int|
                #![trigger event->waiting@[i]]
                0 <= i < event->waiting@.len() && event->waiting@[i] is Shutdown;
            let due = old(watcher).next_cli_path_refresh.nanos <= now.nanos;
            &&& ends <==> step is End
            &&& !ends ==> step is Scan && step->refreshes_cli_path == due
            &&& !ends && due ==> final(watcher).next_cli_path_refresh.nanos == now.nanos
                + 30_000_000_000
            &&& ends || !due ==> *final(watcher) == *old(watcher)
        },
        event is ScanFailed ==> {
            let logs = old(watcher).last_error_log is None || now.nanos
                - old(watcher).last_error_log->0.nanos >= 60_000_000_000;
            &&& step is Pause
            &&& step->timeout == old(watcher).idle_interval
            &&& step->log is Some <==> logs
            &&& logs ==> final(watcher).last_error_log == Some(now)
            &&& !logs ==> *final(watcher) == *old(watcher)
        },
        event is Waited ==> {
            &&& event->result == 0xffff_ffff <==> step is Pause
            &&& event->result != 0xffff_ffff <==> step is TakeCommands
            &&& step is Pause ==> step->log is Some && step->timeout == old(watcher).idle_interval
            &&& *final(watcher) == *old(watcher)
        },
        event is Paused ==> {
            let received = event->Paused_0;
            let ends = received is Disconnected || (received is Received && received->0
                is Shutdown);
            &&& ends <==> step is End
            &&& !ends ==> step is TakeCommands
            &&& *final(watcher) == *old(watcher)
        },
{
    if event is Commands {
        let waiting = event->waiting@;
        if exists|i: int| #![trigger waiting[i]] 0 <= i < waiting.len() && waiting[i] is Shutdown {
            let i = choose|i: int|
                #![trigger waiting[i]]
                0 <= i < waiting.len() && waiting[i] is Shutdown;
            assert(waiting[i] == WatcherCommand::Shutdown);
        }
        if waiting.contains(WatcherCommand::Shutdown) {
            let i = choose|i: int| 0 <= i < waiting.len() && waiting[i]
                == WatcherCommand::Shutdown;
            assert(waiting[i] is Shutdown);
        }
    }
}

/// A failed call is reported with what was tried and its status; a listing that fails says whether
/// it was the first process or a later one.
pub proof fn law_failures_say_what_was_tried(
    listed: bool,
    status: u32,
    length: u32,
    buffer: &[u16],
    end: Result<(), AppError>,
    units: Result<Option<u32>, AppError>,
    family: Result<String, AppError>,
    ended: Result<(), AppError>,
    first: AppError,
    later: AppError,
    unmeasured: AppError,
    unread: AppError,
    unwaited: AppError,
)
    requires
        call_ensures(enumerate_processes, (listed, status), end),
        call_ensures(package_family_length, (status, length), units),
        call_ensures(process_package_family, (status, buffer), family),
        call_ensures(wait_for_handles, (WAIT_FAILED, status), ended),
        call_ensures(status_error, ("无法读取首个进程：", status), first),
        call_ensures(status_error, ("无法继续读取进程：", status), later),
        call_ensures(
            status_error,
            ("GetPackageFamilyName 长度查询失败：", status),
            unmeasured,
        ),
        call_ensures(status_error, ("GetPackageFamilyName 读取失败：", status), unread),
        call_ensures(status_error, ("WaitForMultipleObjects 返回错误 ", status), unwaited),
    ensures
        end is Err && !listed ==> end->Err_0.reason() == first.reason(),
        end is Err && listed ==> end->Err_0.reason() == later.reason(),
        units is Err ==> units->Err_0.reason() == unmeasured.reason(),
        family is Err ==> family->Err_0.reason() == unread.reason(),
        ended is Err && ended->Err_0.reason() == unwaited.reason(),
{
}

/// A package family is the wide string that was read.
pub proof fn law_a_package_family_is_what_was_read(
    status: u32,
    buffer: &[u16],
    family: Result<String, AppError>,
    shown: String,
)
    requires
        call_ensures(process_package_family, (status, buffer), family),
        call_ensures(wide_slice_to_string, (buffer,), shown),
    ensures
        family is Ok ==> family->Ok_0@ == shown@,
{
}

/// What the watcher logs says what failed and why.
pub proof fn law_the_log_says_what_failed(
    watcher: &mut Watcher,
    event: WatchEvent,
    now: Instant,
    step: WatchStep,
    ended: Result<(), AppError>,
    reason: &str,
)
    requires
        old(watcher).well_formed(),
        now.nanos + 30_000_000_000 <= u128::MAX,
        call_ensures(Watcher::watcher_loop, (watcher, event, now), step),
        step is Pause,
        step->log is Some,
        event is ScanFailed ==> call_ensures(
            AppError::message,
            (&event->ScanFailed_0,),
            reason,
        ),
        event is Waited ==> call_ensures(
            wait_for_handles,
            (event->result, event->last_error),
            ended,
        ) && ended is Err && call_ensures(AppError::message, (&ended->Err_0,), reason),
    ensures
        event is ScanFailed ==> step->log->0@ == "Codex 进程扫描失败："@ + reason@,
        event is Waited ==> step->log->0@ == "等待 Codex 进程状态失败："@ + reason@,
{
}

} // verus!
