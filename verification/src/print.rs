//! The print job: a badge image arrives in text-safe form, is written to a
//! temporary file, handed to a printer, and the file is removed again.
//!
//! The job is a state machine. `begin` decodes the image and names the first
//! operation; the caller performs each operation and reports how it went with
//! `advance`, which names the next one. The job is over once it is `Done`.

use vstd::prelude::*;
use vstd::string::*;
use crate::codec::{decode_payload, standard_decoding};
use crate::event::{Notice, NoticeView};
use crate::text::{decimal, decimal_text};

verus! {

/// Why a badge was not printed.
#[derive(Debug, PartialEq, Eq)]
pub enum PrintFailure {
    /// The image is not valid text-safe data.
    MalformedPayload { detail: String },
    /// The temporary file could not be written.
    WriteFailed { detail: String },
    /// The preferred printer refused the job.
    PreferredPrinter { detail: String },
    /// The preferred printer is absent and the system has no default printer.
    NoDefaultPrinter,
    /// The default printer refused the job.
    DefaultPrinter { detail: String },
}

/// What a `PrintFailure` is, over mathematical text.
pub enum PrintFailureView {
    MalformedPayload { detail: Seq<char> },
    WriteFailed { detail: Seq<char> },
    PreferredPrinter { detail: Seq<char> },
    NoDefaultPrinter,
    DefaultPrinter { detail: Seq<char> },
}

impl PrintFailureView {
    /// The failure in words, as the user gets to read it.
    pub open spec fn message(self) -> Seq<char> {
        match self {
            PrintFailureView::MalformedPayload { detail } => "Failed to decode base64: "@ + detail,
            PrintFailureView::WriteFailed { detail } => "Failed to write file: "@ + detail,
            PrintFailureView::PreferredPrinter { detail } => "PDF printer error: "@ + detail,
            PrintFailureView::NoDefaultPrinter => "No default printer found"@,
            PrintFailureView::DefaultPrinter { detail } => "Default printer error: "@ + detail,
        }
    }

    /// The event that reports the failure.
    pub open spec fn notice(self) -> NoticeView {
        NoticeView::BadgePrintError { message: self.message() }
    }
}

impl View for PrintFailure {
    type V = PrintFailureView;

    open spec fn view(&self) -> PrintFailureView {
        match self {
            PrintFailure::MalformedPayload { detail } => PrintFailureView::MalformedPayload {
                detail: detail@,
            },
            PrintFailure::WriteFailed { detail } => PrintFailureView::WriteFailed {
                detail: detail@,
            },
            PrintFailure::PreferredPrinter { detail } => PrintFailureView::PreferredPrinter {
                detail: detail@,
            },
            PrintFailure::NoDefaultPrinter => PrintFailureView::NoDefaultPrinter,
            PrintFailure::DefaultPrinter { detail } => PrintFailureView::DefaultPrinter {
                detail: detail@,
            },
        }
    }
}

impl PrintFailure {
    /// The failure in words, as the user gets to read it.
    pub fn message(&self) -> (message: String)
        ensures
            message@ == self@.message(),
    {
        match self {
            PrintFailure::MalformedPayload { detail } => String::from_str(
                "Failed to decode base64: ",
            ).concat(detail.as_str()),
            PrintFailure::WriteFailed { detail } => String::from_str(
                "Failed to write file: ",
            ).concat(detail.as_str()),
            PrintFailure::PreferredPrinter { detail } => String::from_str(
                "PDF printer error: ",
            ).concat(detail.as_str()),
            PrintFailure::NoDefaultPrinter => String::from_str("No default printer found"),
            PrintFailure::DefaultPrinter { detail } => String::from_str(
                "Default printer error: ",
            ).concat(detail.as_str()),
        }
    }

    /// The event that reports the failure.
    pub fn notice(&self) -> (notice: Notice)
        ensures
            notice@ == self@.notice(),
    {
        Notice::BadgePrintError { message: self.message() }
    }
}

/// The printer that a job is handed to.
#[derive(Debug, PartialEq, Eq)]
pub enum Target {
    /// The printer of this name.
    Named(String),
    /// The default printer of the system.
    SystemDefault,
}

/// What a `Target` is, over mathematical text.
pub enum TargetView {
    Named(Seq<char>),
    SystemDefault,
}

impl View for Target {
    type V = TargetView;

    open spec fn view(&self) -> TargetView {
        match self {
            Target::Named(name) => TargetView::Named(name@),
            Target::SystemDefault => TargetView::SystemDefault,
        }
    }
}

/// The options that go with a job.
#[derive(Debug, PartialEq, Eq)]
pub struct JobOptions {
    /// Title of the job, if it has one.
    pub name: Option<String>,
    /// Properties handed to the print system as they are, key and value.
    pub raw_properties: Vec<(String, String)>,
}

/// What `JobOptions` are, over mathematical text.
pub struct JobOptionsView {
    pub name: Option<Seq<char>>,
    pub raw_properties: Seq<(Seq<char>, Seq<char>)>,
}

/// Properties over mathematical text.
pub open spec fn property_views(properties: Seq<(String, String)>) -> Seq<(Seq<char>, Seq<char>)> {
    properties.map_values(|property: (String, String)| (property.0@, property.1@))
}

impl View for JobOptions {
    type V = JobOptionsView;

    open spec fn view(&self) -> JobOptionsView {
        JobOptionsView {
            name: match self.name {
                Some(name) => Some(name@),
                None => None,
            },
            raw_properties: property_views(self.raw_properties@),
        }
    }
}

/// Name of the printer that is preferred where the system has it.
pub open spec fn preferred_printer_name() -> Seq<char> {
    "PDF"@
}

/// No title and no raw property: the print system decides.
pub open spec fn plain_options() -> JobOptionsView {
    JobOptionsView { name: None, raw_properties: Seq::empty() }
}

/// No title; the document is sent as it is, in one copy.
pub open spec fn raw_single_copy_options() -> JobOptionsView {
    JobOptionsView {
        name: None,
        raw_properties: seq![
            ("document-format"@, "application/vnd.cups-raw"@),
            ("copies"@, "1"@),
        ],
    }
}

/// Path of the temporary file of the job with number `serial` that begins
/// `now_secs` seconds after the epoch.
pub open spec fn temp_path(now_secs: u64, serial: u64) -> Seq<char> {
    "/tmp/badge_"@ + decimal(now_secs as nat) + "_"@ + decimal(serial as nat) + ".jpg"@
}

impl JobOptions {
    /// No title and no raw property: the print system decides.
    pub fn plain() -> (options: JobOptions)
        ensures
            options@ == plain_options(),
    {
        let options = JobOptions { name: None, raw_properties: Vec::new() };
        assert(options@.raw_properties =~= Seq::empty());
        options
    }

    /// No title; the document is sent as it is, in one copy.
    pub fn raw_single_copy() -> (options: JobOptions)
        ensures
            options@ == raw_single_copy_options(),
    {
        let mut raw_properties: Vec<(String, String)> = Vec::new();
        raw_properties.push(
            (String::from_str("document-format"), String::from_str("application/vnd.cups-raw")),
        );
        raw_properties.push((String::from_str("copies"), String::from_str("1")));
        let options = JobOptions { name: None, raw_properties };
        assert(options@.raw_properties =~= raw_single_copy_options().raw_properties);
        options
    }
}

/// Name of the printer that is preferred where the system has it.
pub fn preferred_printer() -> (name: &'static str)
    ensures
        name@ == preferred_printer_name(),
{
    "PDF"
}

/// Path of the temporary file of the job with number `serial` that begins
/// `now_secs` seconds after the epoch.
///
/// Jobs that differ in their second or in their number have different
/// files: a caller that numbers its jobs, each with a number of its own,
/// keeps them apart however close in time they begin.
pub fn temp_file_path(now_secs: u64, serial: u64) -> (path: String)
    ensures
        path@ == temp_path(now_secs, serial),
{
    let stamp = decimal_text(now_secs);
    let number = decimal_text(serial);
    String::from_str("/tmp/badge_").concat(stamp.as_str()).concat("_").concat(
        number.as_str(),
    ).concat(".jpg")
}

/// Where a job stands: the operation whose outcome it waits for.
#[derive(Debug, PartialEq, Eq)]
pub enum PrintState {
    /// The temporary file at `path` is being written.
    Writing { path: String },
    /// The preferred printer is being looked up.
    SeekingPreferred { path: String },
    /// The file is being handed to the preferred printer.
    SendingToPreferred { path: String },
    /// The default printer is being looked up.
    SeekingDefault { path: String },
    /// The file is being handed to the default printer.
    SendingToDefault { path: String },
    /// The temporary file is being removed; `report` is published after that.
    Removing { report: Notice },
    /// The job is over.
    Done,
}

/// What a `PrintState` is, over mathematical text.
pub enum PrintStateView {
    Writing { path: Seq<char> },
    SeekingPreferred { path: Seq<char> },
    SendingToPreferred { path: Seq<char> },
    SeekingDefault { path: Seq<char> },
    SendingToDefault { path: Seq<char> },
    Removing { report: NoticeView },
    Done,
}

impl View for PrintState {
    type V = PrintStateView;

    open spec fn view(&self) -> PrintStateView {
        match self {
            PrintState::Writing { path } => PrintStateView::Writing { path: path@ },
            PrintState::SeekingPreferred { path } => PrintStateView::SeekingPreferred {
                path: path@,
            },
            PrintState::SendingToPreferred { path } => PrintStateView::SendingToPreferred {
                path: path@,
            },
            PrintState::SeekingDefault { path } => PrintStateView::SeekingDefault { path: path@ },
            PrintState::SendingToDefault { path } => PrintStateView::SendingToDefault {
                path: path@,
            },
            PrintState::Removing { report } => PrintStateView::Removing { report: report@ },
            PrintState::Done => PrintStateView::Done,
        }
    }
}

impl PrintState {
    /// Whether the job is over.
    pub fn is_done(&self) -> (done: bool)
        ensures
            done == (self@ is Done),
    {
        match self {
            PrintState::Done => true,
            _ => false,
        }
    }
}

/// How an operation went.
#[derive(Debug, PartialEq, Eq)]
pub enum PrintEvent {
    /// The temporary file was written.
    Written,
    /// The temporary file could not be written.
    WriteFailed { detail: String },
    /// The system has the printer that was looked up.
    PrinterFound,
    /// The system does not have the printer that was looked up.
    PrinterMissing,
    /// The printer took the file as job `job_id`.
    Submitted { job_id: u64 },
    /// The printer refused the file.
    SubmitFailed { detail: String },
    /// The removal of the temporary file ended, well or not.
    Removed { deleted: bool },
}

/// What a `PrintEvent` is, over mathematical text.
pub enum PrintEventView {
    Written,
    WriteFailed { detail: Seq<char> },
    PrinterFound,
    PrinterMissing,
    Submitted { job_id: u64 },
    SubmitFailed { detail: Seq<char> },
    Removed { deleted: bool },
}

impl View for PrintEvent {
    type V = PrintEventView;

    open spec fn view(&self) -> PrintEventView {
        match self {
            PrintEvent::Written => PrintEventView::Written,
            PrintEvent::WriteFailed { detail } => PrintEventView::WriteFailed { detail: detail@ },
            PrintEvent::PrinterFound => PrintEventView::PrinterFound,
            PrintEvent::PrinterMissing => PrintEventView::PrinterMissing,
            PrintEvent::Submitted { job_id } => PrintEventView::Submitted { job_id: *job_id },
            PrintEvent::SubmitFailed { detail } => PrintEventView::SubmitFailed {
                detail: detail@,
            },
            PrintEvent::Removed { deleted } => PrintEventView::Removed { deleted: *deleted },
        }
    }
}

/// The operation to perform next.
#[derive(Debug, PartialEq, Eq)]
pub enum PrintAction {
    /// Write `bytes` to a new file at `path`.
    WriteFile { path: String, bytes: Vec<u8> },
    /// Look up the printer called `name`.
    FindPrinter { name: String },
    /// Look up the default printer of the system.
    FindDefaultPrinter,
    /// Hand the file at `path` to `printer`, which the last lookup found.
    Submit { printer: Target, path: String, options: JobOptions },
    /// Remove the file at `path`.
    RemoveFile { path: String },
    /// Hand the event to the sink; nothing depends on whether it takes it.
    Publish(Notice),
}

/// What a `PrintAction` is, over mathematical text.
pub enum PrintActionView {
    WriteFile { path: Seq<char>, bytes: Seq<u8> },
    FindPrinter { name: Seq<char> },
    FindDefaultPrinter,
    Submit { printer: TargetView, path: Seq<char>, options: JobOptionsView },
    RemoveFile { path: Seq<char> },
    Publish(NoticeView),
}

impl View for PrintAction {
    type V = PrintActionView;

    open spec fn view(&self) -> PrintActionView {
        match self {
            PrintAction::WriteFile { path, bytes } => PrintActionView::WriteFile {
                path: path@,
                bytes: bytes@,
            },
            PrintAction::FindPrinter { name } => PrintActionView::FindPrinter { name: name@ },
            PrintAction::FindDefaultPrinter => PrintActionView::FindDefaultPrinter,
            PrintAction::Submit { printer, path, options } => PrintActionView::Submit {
                printer: printer@,
                path: path@,
                options: options@,
            },
            PrintAction::RemoveFile { path } => PrintActionView::RemoveFile { path: path@ },
            PrintAction::Publish(notice) => PrintActionView::Publish(notice@),
        }
    }
}

/// Whether `event` reports on the operation that `state` waits for.
pub open spec fn awaits(state: PrintStateView, event: PrintEventView) -> bool {
    match state {
        PrintStateView::Writing { .. } => event is Written || event is WriteFailed,
        PrintStateView::SeekingPreferred { .. } | PrintStateView::SeekingDefault { .. } => event
            is PrinterFound || event is PrinterMissing,
        PrintStateView::SendingToPreferred { .. } | PrintStateView::SendingToDefault { .. } => event
            is Submitted || event is SubmitFailed,
        PrintStateView::Removing { .. } => event is Removed,
        PrintStateView::Done => false,
    }
}

/// The temporary file at `path` is removed, and `report` is published after
/// that.
pub open spec fn clean_up(path: Seq<char>, report: NoticeView) -> (
    PrintStateView,
    PrintActionView,
) {
    (PrintStateView::Removing { report }, PrintActionView::RemoveFile { path })
}

/// The state after `event` and the operation to perform then, for an event
/// that `state` waits for.
pub open spec fn next(state: PrintStateView, event: PrintEventView) -> (
    PrintStateView,
    PrintActionView,
)
    recommends
        awaits(state, event),
{
    match state {
        PrintStateView::Writing { path } => match event {
            PrintEventView::WriteFailed { detail } => (
                PrintStateView::Done,
                PrintActionView::Publish(PrintFailureView::WriteFailed { detail }.notice()),
            ),
            _ => (
                PrintStateView::SeekingPreferred { path },
                PrintActionView::FindPrinter { name: preferred_printer_name() },
            ),
        },
        PrintStateView::SeekingPreferred { path } => if event is PrinterFound {
            (
                PrintStateView::SendingToPreferred { path },
                PrintActionView::Submit {
                    printer: TargetView::Named(preferred_printer_name()),
                    path,
                    options: plain_options(),
                },
            )
        } else {
            (PrintStateView::SeekingDefault { path }, PrintActionView::FindDefaultPrinter)
        },
        PrintStateView::SendingToPreferred { path } => match event {
            PrintEventView::SubmitFailed { detail } => clean_up(
                path,
                PrintFailureView::PreferredPrinter { detail }.notice(),
            ),
            PrintEventView::Submitted { job_id } => clean_up(
                path,
                NoticeView::BadgePrinted { job_id },
            ),
            _ => arbitrary(),
        },
        PrintStateView::SeekingDefault { path } => if event is PrinterFound {
            (
                PrintStateView::SendingToDefault { path },
                PrintActionView::Submit {
                    printer: TargetView::SystemDefault,
                    path,
                    options: raw_single_copy_options(),
                },
            )
        } else {
            clean_up(path, PrintFailureView::NoDefaultPrinter.notice())
        },
        PrintStateView::SendingToDefault { path } => match event {
            PrintEventView::SubmitFailed { detail } => clean_up(
                path,
                PrintFailureView::DefaultPrinter { detail }.notice(),
            ),
            PrintEventView::Submitted { job_id } => clean_up(
                path,
                NoticeView::BadgePrinted { job_id },
            ),
            _ => arbitrary(),
        },
        PrintStateView::Removing { report } => (
            PrintStateView::Done,
            PrintActionView::Publish(report),
        ),
        PrintStateView::Done => arbitrary(),
    }
}

/// The report that an image could not be decoded, with the words `detail` of
/// the decoder.
pub open spec fn malformed_report(detail: Seq<char>) -> PrintActionView {
    PrintActionView::Publish(PrintFailureView::MalformedPayload { detail }.notice())
}

/// Begins the job of printing `image`, a badge in text-safe form, at
/// `now_secs` seconds after the epoch. `serial` is the number of the job,
/// which the caller gives to no other job.
///
/// Where `image` decodes, the job writes the bytes to its temporary file,
/// named after the second and the number. Where it does not, the job is over
/// at once: the one operation left is to report the failure in the words of
/// the decoder, and no file is written.
pub fn begin(image: &str, now_secs: u64, serial: u64) -> (begun: (PrintState, PrintAction))
    ensures
        match standard_decoding(image@) {
            Ok(bytes) => {
                &&& begun.0@ == PrintStateView::Writing { path: temp_path(now_secs, serial) }
                &&& begun.1@ == PrintActionView::WriteFile {
                    path: temp_path(now_secs, serial),
                    bytes,
                }
            },
            Err(detail) => {
                &&& begun.0@ is Done
                &&& begun.1@ == malformed_report(detail)
            },
        },
{
    match decode_payload(image) {
        Ok(bytes) => {
            let path = temp_file_path(now_secs, serial);
            (PrintState::Writing { path: path.clone() }, PrintAction::WriteFile { path, bytes })
        },
        Err(refused) => {
            let failure = PrintFailure::MalformedPayload { detail: refused.detail };
            (PrintState::Done, PrintAction::Publish(failure.notice()))
        },
    }
}

/// The removal of the temporary file at `path`, with `report` kept for later.
fn remove_then(path: &String, report: Notice) -> (moved: (PrintState, PrintAction))
    ensures
        (moved.0@, moved.1@) == clean_up(path@, report@),
{
    (PrintState::Removing { report }, PrintAction::RemoveFile { path: path.clone() })
}

/// Takes the report of the operation that `state` waits for, and names the
/// next one.
///
/// Returns `None` for an event that `state` does not wait for; a job that is
/// over waits for none.
pub fn advance(state: &PrintState, event: &PrintEvent) -> (moved: Option<
    (PrintState, PrintAction),
>)
    ensures
        moved.is_some() == awaits(state@, event@),
        moved matches Some((after, action)) ==> (after@, action@) == next(state@, event@),
{
    match (state, event) {
        (PrintState::Writing { path }, PrintEvent::Written) => Some(
            (
                PrintState::SeekingPreferred { path: path.clone() },
                PrintAction::FindPrinter { name: String::from_str(preferred_printer()) },
            ),
        ),
        (PrintState::Writing { .. }, PrintEvent::WriteFailed { detail }) => {
            let failure = PrintFailure::WriteFailed { detail: detail.clone() };
            Some((PrintState::Done, PrintAction::Publish(failure.notice())))
        },
        (PrintState::SeekingPreferred { path }, PrintEvent::PrinterFound) => Some(
            (
                PrintState::SendingToPreferred { path: path.clone() },
                PrintAction::Submit {
                    printer: Target::Named(String::from_str(preferred_printer())),
                    path: path.clone(),
                    options: JobOptions::plain(),
                },
            ),
        ),
        (PrintState::SeekingPreferred { path }, PrintEvent::PrinterMissing) => Some(
            (PrintState::SeekingDefault { path: path.clone() }, PrintAction::FindDefaultPrinter),
        ),
        (PrintState::SendingToPreferred { path }, PrintEvent::Submitted { job_id }) => Some(
            remove_then(path, Notice::BadgePrinted { job_id: *job_id }),
        ),
        (PrintState::SendingToPreferred { path }, PrintEvent::SubmitFailed { detail }) => {
            let failure = PrintFailure::PreferredPrinter { detail: detail.clone() };
            Some(remove_then(path, failure.notice()))
        },
        (PrintState::SeekingDefault { path }, PrintEvent::PrinterFound) => Some(
            (
                PrintState::SendingToDefault { path: path.clone() },
                PrintAction::Submit {
                    printer: Target::SystemDefault,
                    path: path.clone(),
                    options: JobOptions::raw_single_copy(),
                },
            ),
        ),
        (PrintState::SeekingDefault { path }, PrintEvent::PrinterMissing) => Some(
            remove_then(path, PrintFailure::NoDefaultPrinter.notice()),
        ),
        (PrintState::SendingToDefault { path }, PrintEvent::Submitted { job_id }) => Some(
            remove_then(path, Notice::BadgePrinted { job_id: *job_id }),
        ),
        (PrintState::SendingToDefault { path }, PrintEvent::SubmitFailed { detail }) => {
            let failure = PrintFailure::DefaultPrinter { detail: detail.clone() };
            Some(remove_then(path, failure.notice()))
        },
        (PrintState::Removing { report }, PrintEvent::Removed { .. }) => Some(
            (PrintState::Done, PrintAction::Publish(report.clone())),
        ),
        _ => None,
    }
}

/// The events of a recorded job, over mathematical text.
pub open spec fn event_views(events: Seq<PrintEvent>) -> Seq<PrintEventView> {
    events.map_values(|event: PrintEvent| event@)
}

/// The operations of a job, over mathematical text.
pub open spec fn action_views(actions: Seq<PrintAction>) -> Seq<PrintActionView> {
    actions.map_values(|action: PrintAction| action@)
}

/// What a job that stands in `state` makes of `events`: the state it ends in
/// and the operations it names, one for each event, in order; `None` where
/// an event comes that the job does not wait for.
pub open spec fn run(state: PrintStateView, events: Seq<PrintEventView>) -> Option<
    (PrintStateView, Seq<PrintActionView>),
>
    decreases events.len(),
{
    if events.len() == 0 {
        Some((state, Seq::empty()))
    } else {
        match run(state, events.drop_last()) {
            Some((before, actions)) => if awaits(before, events.last()) {
                let (after, action) = next(before, events.last());
                Some((after, actions.push(action)))
            } else {
                None
            },
            None => None,
        }
    }
}

/// A job that refuses an event refuses every continuation too.
pub proof fn lemma_run_refused_early(state: PrintStateView, events: Seq<PrintEventView>, n: int)
    requires
        0 <= n <= events.len(),
        run(state, events.take(n)).is_none(),
    ensures
        run(state, events).is_none(),
    decreases events.len() - n,
{
    if n < events.len() {
        assert(events.take(n + 1).drop_last() == events.take(n));
        lemma_run_refused_early(state, events, n + 1);
    } else {
        assert(events.take(n) == events);
    }
}

/// Feeds recorded events to a job that stands in `start`.
///
/// Returns the state that the job ends in and the operations that it named,
/// one for each event, or `None` where it refuses an event.
pub fn replay(start: PrintState, events: &Vec<PrintEvent>) -> (outcome: Option<
    (PrintState, Vec<PrintAction>),
>)
    ensures
        match outcome {
            Some((state, actions)) => {
                &&& run(start@, event_views(events@)) == Some((state@, action_views(actions@)))
                &&& actions@.len() == events@.len()
            },
            None => run(start@, event_views(events@)).is_none(),
        },
{
    let ghost session = event_views(events@);
    let ghost origin = start@;
    let mut state = start;
    let mut actions: Vec<PrintAction> = Vec::new();
    let mut i: usize = 0;
    assert(session.take(0) == Seq::<PrintEventView>::empty());
    assert(action_views(actions@) == Seq::<PrintActionView>::empty());
    while i < events.len()
        invariant
            i <= events.len(),
            origin == start@,
            session == event_views(events@),
            run(origin, session.take(i as int)) == Some((state@, action_views(actions@))),
            actions@.len() == i,
        decreases events.len() - i,
    {
        proof {
            assert(session.take(i + 1).drop_last() == session.take(i as int));
            assert(session.take(i + 1).last() == events@[i as int]@);
        }
        match advance(&state, &events[i]) {
            Some((after, action)) => {
                proof {
                    assert(action_views(actions@.push(action)) == action_views(actions@).push(
                        action@,
                    ));
                }
                state = after;
                actions.push(action);
            },
            None => {
                proof {
                    lemma_run_refused_early(origin, session, i + 1);
                }
                return None;
            },
        }
        i += 1;
    }
    assert(session.take(i as int) == session);
    Some((state, actions))
}

} // verus!
