//! What holds of every print job.

use vstd::prelude::*;
use crate::event::NoticeView;
use crate::print::{
    awaits, malformed_report, next, plain_options, preferred_printer_name,
    raw_single_copy_options, run, temp_path, PrintActionView, PrintEventView, PrintFailureView,
    PrintStateView, TargetView,
};
use crate::text::{decimal, is_digit, law_decimal_is_injective, lemma_decimal_is_digits};

verus! {

/// What a printer made of a file.
pub enum Submission {
    /// It took the file as job `job_id`.
    Taken { job_id: u64 },
    /// It refused the file.
    Refused { detail: Seq<char> },
}

impl Submission {
    /// The report of the submission to the job.
    pub open spec fn event(self) -> PrintEventView {
        match self {
            Submission::Taken { job_id } => PrintEventView::Submitted { job_id },
            Submission::Refused { detail } => PrintEventView::SubmitFailed { detail },
        }
    }
}

/// The course of a whole job, from the writing of its temporary file on.
pub enum JobCourse {
    /// The temporary file could not be written.
    WriteRefused { detail: Seq<char> },
    /// The system has the preferred printer, which got the file.
    ViaPreferred { submission: Submission, deleted: bool },
    /// The system lacks the preferred printer; its default printer got the file.
    ViaDefault { submission: Submission, deleted: bool },
    /// The system has neither the preferred printer nor a default printer.
    NoPrinter { deleted: bool },
}

impl JobCourse {
    /// The reports that the job receives, in order.
    pub open spec fn events(self) -> Seq<PrintEventView> {
        match self {
            JobCourse::WriteRefused { detail } => seq![PrintEventView::WriteFailed { detail }],
            JobCourse::ViaPreferred { submission, deleted } => seq![
                PrintEventView::Written,
                PrintEventView::PrinterFound,
                submission.event(),
                PrintEventView::Removed { deleted },
            ],
            JobCourse::ViaDefault { submission, deleted } => seq![
                PrintEventView::Written,
                PrintEventView::PrinterMissing,
                PrintEventView::PrinterFound,
                submission.event(),
                PrintEventView::Removed { deleted },
            ],
            JobCourse::NoPrinter { deleted } => seq![
                PrintEventView::Written,
                PrintEventView::PrinterMissing,
                PrintEventView::PrinterMissing,
                PrintEventView::Removed { deleted },
            ],
        }
    }

    /// The event that tells the user how the job ended: the job number where
    /// a printer took the file, the failure in words where none did.
    pub open spec fn report(self) -> NoticeView {
        match self {
            JobCourse::WriteRefused { detail } => PrintFailureView::WriteFailed { detail }.notice(),
            JobCourse::ViaPreferred { submission, .. } => match submission {
                Submission::Taken { job_id } => NoticeView::BadgePrinted { job_id },
                Submission::Refused { detail } => PrintFailureView::PreferredPrinter {
                    detail,
                }.notice(),
            },
            JobCourse::ViaDefault { submission, .. } => match submission {
                Submission::Taken { job_id } => NoticeView::BadgePrinted { job_id },
                Submission::Refused { detail } => PrintFailureView::DefaultPrinter {
                    detail,
                }.notice(),
            },
            JobCourse::NoPrinter { .. } => PrintFailureView::NoDefaultPrinter.notice(),
        }
    }

    /// The operations that the job names after the writing of the file at
    /// `path`, in order.
    pub open spec fn actions(self, path: Seq<char>) -> Seq<PrintActionView> {
        match self {
            JobCourse::WriteRefused { .. } => seq![PrintActionView::Publish(self.report())],
            JobCourse::ViaPreferred { .. } => seq![
                PrintActionView::FindPrinter { name: preferred_printer_name() },
                PrintActionView::Submit {
                    printer: TargetView::Named(preferred_printer_name()),
                    path,
                    options: plain_options(),
                },
                PrintActionView::RemoveFile { path },
                PrintActionView::Publish(self.report()),
            ],
            JobCourse::ViaDefault { .. } => seq![
                PrintActionView::FindPrinter { name: preferred_printer_name() },
                PrintActionView::FindDefaultPrinter,
                PrintActionView::Submit {
                    printer: TargetView::SystemDefault,
                    path,
                    options: raw_single_copy_options(),
                },
                PrintActionView::RemoveFile { path },
                PrintActionView::Publish(self.report()),
            ],
            JobCourse::NoPrinter { .. } => seq![
                PrintActionView::FindPrinter { name: preferred_printer_name() },
                PrintActionView::FindDefaultPrinter,
                PrintActionView::RemoveFile { path },
                PrintActionView::Publish(self.report()),
            ],
        }
    }
}

/// One more event extends a job by one step.
pub proof fn lemma_run_push(state: PrintStateView, events: Seq<PrintEventView>, event: PrintEventView)
    ensures
        run(state, events.push(event)) == match run(state, events) {
            Some((before, actions)) => if awaits(before, event) {
                Some((next(before, event).0, actions.push(next(before, event).1)))
            } else {
                None
            },
            None => None,
        },
{
    assert(events.push(event).drop_last() == events);
}

/// Events in two parts are the first part, then the second from the state
/// that the first ends in.
pub proof fn lemma_run_concat(
    state: PrintStateView,
    first: Seq<PrintEventView>,
    second: Seq<PrintEventView>,
)
    ensures
        run(state, first + second) == match run(state, first) {
            Some((middle, begun)) => match run(middle, second) {
                Some((end, rest)) => Some((end, begun + rest)),
                None => None,
            },
            None => None,
        },
    decreases second.len(),
{
    if second.len() == 0 {
        assert(first + second == first);
        if let Some((middle, begun)) = run(state, first) {
            assert(begun + Seq::<PrintActionView>::empty() == begun);
        }
    } else {
        lemma_run_concat(state, first, second.drop_last());
        assert((first + second).drop_last() == first + second.drop_last());
        assert((first + second).last() == second.last());
        if let Some((middle, begun)) = run(state, first) {
            if let Some((before, rest)) = run(middle, second.drop_last()) {
                assert((begun + rest).push(next(before, second.last()).1) == begun + rest.push(
                    next(before, second.last()).1,
                ));
            }
        }
    }
}

/// The first event decides the first step; the rest goes on from there.
pub proof fn lemma_run_front(state: PrintStateView, events: Seq<PrintEventView>)
    requires
        events.len() > 0,
    ensures
        run(state, events) == if awaits(state, events[0]) {
            match run(next(state, events[0]).0, events.drop_first()) {
                Some((end, rest)) => Some((end, seq![next(state, events[0]).1] + rest)),
                None => None,
            }
        } else {
            None
        },
{
    let first = Seq::<PrintEventView>::empty().push(events[0]);
    lemma_run_push(state, Seq::empty(), events[0]);
    lemma_run_concat(state, first, events.drop_first());
    assert(first + events.drop_first() == events);
    assert(seq![next(state, events[0]).1] == Seq::<PrintActionView>::empty().push(
        next(state, events[0]).1,
    ));
}

/// A job that is over stays over: it takes no further event.
pub proof fn law_done_is_final(events: Seq<PrintEventView>)
    requires
        events.len() > 0,
    ensures
        run(PrintStateView::Done, events).is_none(),
{
    lemma_run_front(PrintStateView::Done, events);
}

/// The preferred printer gets the job wherever the system has it, with the
/// options left to the print system; the default printer is not looked up.
pub proof fn law_preferred_printer_first(path: Seq<char>)
    ensures
        awaits(PrintStateView::SeekingPreferred { path }, PrintEventView::PrinterFound),
        next(PrintStateView::SeekingPreferred { path }, PrintEventView::PrinterFound) == (
            PrintStateView::SendingToPreferred { path },
            PrintActionView::Submit {
                printer: TargetView::Named("PDF"@),
                path,
                options: plain_options(),
            },
        ),
{
}

/// Where the system lacks the preferred printer and has a default printer,
/// the default printer gets the job, as a raw document in one copy.
pub proof fn law_default_printer_second(path: Seq<char>)
    ensures
        run(
            PrintStateView::SeekingPreferred { path },
            seq![PrintEventView::PrinterMissing, PrintEventView::PrinterFound],
        ) == Some(
            (
                PrintStateView::SendingToDefault { path },
                seq![
                    PrintActionView::FindDefaultPrinter,
                    PrintActionView::Submit {
                        printer: TargetView::SystemDefault,
                        path,
                        options: raw_single_copy_options(),
                    },
                ],
            ),
        ),
        raw_single_copy_options().name.is_none(),
        raw_single_copy_options().raw_properties == seq![
            ("document-format"@, "application/vnd.cups-raw"@),
            ("copies"@, "1"@),
        ],
{
    let state = PrintStateView::SeekingPreferred { path };
    let none = Seq::<PrintEventView>::empty();
    let idle = Seq::<PrintActionView>::empty();
    lemma_run_push(state, none, PrintEventView::PrinterMissing);
    lemma_run_push(state, none.push(PrintEventView::PrinterMissing), PrintEventView::PrinterFound);
    assert(seq![PrintEventView::PrinterMissing, PrintEventView::PrinterFound] == none.push(
        PrintEventView::PrinterMissing,
    ).push(PrintEventView::PrinterFound));
    let submit = PrintActionView::Submit {
        printer: TargetView::SystemDefault,
        path,
        options: raw_single_copy_options(),
    };
    assert(seq![PrintActionView::FindDefaultPrinter, submit] == idle.push(
        PrintActionView::FindDefaultPrinter,
    ).push(submit));
}

/// How the removal of the temporary file went changes nothing: the job ends
/// with the report that the submission decided.
pub proof fn law_cleanup_outcome_is_ignored(report: NoticeView, deleted: bool)
    ensures
        awaits(PrintStateView::Removing { report }, PrintEventView::Removed { deleted }),
        next(PrintStateView::Removing { report }, PrintEventView::Removed { deleted }) == (
            PrintStateView::Done,
            PrintActionView::Publish(report),
        ),
{
}

/// A job runs its course: once the temporary file at `path` is to be
/// written, the job names exactly the operations of `course.actions(path)` and
/// is over. It ends with one report, its last operation.
pub proof fn law_job_course(path: Seq<char>, course: JobCourse)
    ensures
        run(PrintStateView::Writing { path }, course.events()) == Some(
            (PrintStateView::Done, course.actions(path)),
        ),
        course.actions(path).last() == PrintActionView::Publish(course.report()),
{
    let start = PrintStateView::Writing { path };
    let none = Seq::<PrintEventView>::empty();
    let idle = Seq::<PrintActionView>::empty();
    let find = PrintActionView::FindPrinter { name: preferred_printer_name() };
    let find_default = PrintActionView::FindDefaultPrinter;
    let remove = PrintActionView::RemoveFile { path };
    let publish = PrintActionView::Publish(course.report());
    match course {
        JobCourse::WriteRefused { detail } => {
            let e = PrintEventView::WriteFailed { detail };
            lemma_run_push(start, none, e);
            assert(course.events() == none.push(e));
            assert(course.actions(path) == idle.push(publish));
        },
        JobCourse::ViaPreferred { submission, deleted } => {
            let e1 = none.push(PrintEventView::Written);
            let e2 = e1.push(PrintEventView::PrinterFound);
            let e3 = e2.push(submission.event());
            let e4 = e3.push(PrintEventView::Removed { deleted });
            lemma_run_push(start, none, PrintEventView::Written);
            lemma_run_push(start, e1, PrintEventView::PrinterFound);
            lemma_run_push(start, e2, submission.event());
            lemma_run_push(start, e3, PrintEventView::Removed { deleted });
            assert(course.events() == e4);
            let submit = PrintActionView::Submit {
                printer: TargetView::Named(preferred_printer_name()),
                path,
                options: plain_options(),
            };
            assert(course.actions(path) == idle.push(find).push(submit).push(remove).push(
                publish,
            ));
        },
        JobCourse::ViaDefault { submission, deleted } => {
            let e1 = none.push(PrintEventView::Written);
            let e2 = e1.push(PrintEventView::PrinterMissing);
            let e3 = e2.push(PrintEventView::PrinterFound);
            let e4 = e3.push(submission.event());
            let e5 = e4.push(PrintEventView::Removed { deleted });
            lemma_run_push(start, none, PrintEventView::Written);
            lemma_run_push(start, e1, PrintEventView::PrinterMissing);
            lemma_run_push(start, e2, PrintEventView::PrinterFound);
            lemma_run_push(start, e3, submission.event());
            lemma_run_push(start, e4, PrintEventView::Removed { deleted });
            assert(course.events() == e5);
            let submit = PrintActionView::Submit {
                printer: TargetView::SystemDefault,
                path,
                options: raw_single_copy_options(),
            };
            assert(course.actions(path) == idle.push(find).push(find_default).push(submit).push(
                remove,
            ).push(publish));
        },
        JobCourse::NoPrinter { deleted } => {
            let e1 = none.push(PrintEventView::Written);
            let e2 = e1.push(PrintEventView::PrinterMissing);
            let e3 = e2.push(PrintEventView::PrinterMissing);
            let e4 = e3.push(PrintEventView::Removed { deleted });
            lemma_run_push(start, none, PrintEventView::Written);
            lemma_run_push(start, e1, PrintEventView::PrinterMissing);
            lemma_run_push(start, e2, PrintEventView::PrinterMissing);
            lemma_run_push(start, e3, PrintEventView::Removed { deleted });
            assert(course.events() == e4);
            assert(course.actions(path) == idle.push(find).push(find_default).push(remove).push(
                publish,
            ));
        },
    }
}

/// Whether a job that stands in `state` is over after `events`.
pub open spec fn finishes(state: PrintStateView, events: Seq<PrintEventView>) -> bool {
    run(state, events) matches Some((end, _)) && end is Done
}

/// The operations that a job in `state` names on `events`.
pub open spec fn operations(state: PrintStateView, events: Seq<PrintEventView>) -> Seq<
    PrintActionView,
> {
    match run(state, events) {
        Some((_, actions)) => actions,
        None => Seq::empty(),
    }
}

/// A job that removes its file is over after the removal, and not before.
proof fn lemma_finish_from_removing(report: NoticeView, events: Seq<PrintEventView>)
    requires
        finishes(PrintStateView::Removing { report }, events),
    ensures
        events.len() == 1,
        events[0] is Removed,
{
    let state = PrintStateView::Removing { report };
    lemma_run_front(state, events);
    if events.drop_first().len() > 0 {
        law_done_is_final(events.drop_first());
    }
}

/// A job that hands its file to a printer is over after the submission and
/// the removal, and not before.
proof fn lemma_finish_from_sending(state: PrintStateView, events: Seq<PrintEventView>)
    requires
        state is SendingToPreferred || state is SendingToDefault,
        finishes(state, events),
    ensures
        events.len() == 2,
        events[0] is Submitted || events[0] is SubmitFailed,
        events[1] is Removed,
{
    lemma_run_front(state, events);
    let after = next(state, events[0]).0;
    lemma_finish_from_removing(after->Removing_report, events.drop_first());
}

/// Every job that comes to its end ran one of the courses: there is no other
/// way through a job.
pub proof fn law_every_job_runs_a_course(path: Seq<char>, events: Seq<PrintEventView>) -> (course:
    JobCourse)
    requires
        finishes(PrintStateView::Writing { path }, events),
    ensures
        events == course.events(),
{
    let writing = PrintStateView::Writing { path };
    lemma_run_front(writing, events);
    let rest = events.drop_first();
    match events[0] {
        PrintEventView::WriteFailed { detail } => {
            if rest.len() > 0 {
                law_done_is_final(rest);
            }
            let course = JobCourse::WriteRefused { detail };
            assert(events == course.events());
            course
        },
        _ => {
            let seeking = PrintStateView::SeekingPreferred { path };
            lemma_run_front(seeking, rest);
            let rest2 = rest.drop_first();
            if rest[0] is PrinterFound {
                let sending = PrintStateView::SendingToPreferred { path };
                lemma_finish_from_sending(sending, rest2);
                let submission = match rest2[0] {
                    PrintEventView::Submitted { job_id } => Submission::Taken { job_id },
                    PrintEventView::SubmitFailed { detail } => Submission::Refused { detail },
                    _ => arbitrary(),
                };
                let course = JobCourse::ViaPreferred {
                    submission,
                    deleted: rest2[1]->Removed_deleted,
                };
                assert(events == course.events());
                course
            } else {
                let seeking_default = PrintStateView::SeekingDefault { path };
                lemma_run_front(seeking_default, rest2);
                let rest3 = rest2.drop_first();
                if rest2[0] is PrinterFound {
                    let sending = PrintStateView::SendingToDefault { path };
                    lemma_finish_from_sending(sending, rest3);
                    let submission = match rest3[0] {
                        PrintEventView::Submitted { job_id } => Submission::Taken { job_id },
                        PrintEventView::SubmitFailed { detail } => Submission::Refused { detail },
                        _ => arbitrary(),
                    };
                    let course = JobCourse::ViaDefault {
                        submission,
                        deleted: rest3[1]->Removed_deleted,
                    };
                    assert(events == course.events());
                    course
                } else {
                    let report = PrintFailureView::NoDefaultPrinter.notice();
                    lemma_finish_from_removing(report, rest3);
                    let course = JobCourse::NoPrinter { deleted: rest3[0]->Removed_deleted };
                    assert(events == course.events());
                    course
                }
            }
        },
    }
}

/// The temporary file does not outlive the job: whenever the file at `path`
/// was written and the job came to its end, whether a printer took the file
/// or not, the job named the removal of that file. The removal comes after
/// every submission, and only the final report comes after it.
pub proof fn law_temp_file_is_removed(path: Seq<char>, events: Seq<PrintEventView>)
    requires
        finishes(PrintStateView::Writing { path }, events),
        events[0] is Written,
    ensures
        ({
            let actions = operations(PrintStateView::Writing { path }, events);
            &&& actions.len() >= 3
            &&& actions[actions.len() - 2] == PrintActionView::RemoveFile { path }
            &&& actions.last() is Publish
            &&& forall|i: int|
                0 <= i < actions.len() - 2 ==> !(actions[i] is RemoveFile) && !(actions[i]
                    is Publish)
        }),
{
    let course = law_every_job_runs_a_course(path, events);
    law_job_course(path, course);
}

/// An image that cannot be decoded leads to a report and to nothing else:
/// the job is over with it, and a job that is over names no operation, so
/// that no file is ever written.
pub proof fn law_refused_image_ends_the_job(detail: Seq<char>, events: Seq<PrintEventView>)
    ensures
        malformed_report(detail) == PrintActionView::Publish(
            NoticeView::BadgePrintError { message: "Failed to decode base64: "@ + detail },
        ),
        events.len() > 0 ==> run(PrintStateView::Done, events).is_none(),
{
    if events.len() > 0 {
        law_done_is_final(events);
    }
}

/// Jobs that differ in their second or in their number have different
/// temporary files, and only such jobs: as long as no two jobs get the same
/// number, no job writes to or removes the file of another, whether or not
/// they begin in the same second.
pub proof fn law_distinct_jobs_distinct_files(
    first_secs: u64,
    first_serial: u64,
    second_secs: u64,
    second_serial: u64,
)
    ensures
        temp_path(first_secs, first_serial) == temp_path(second_secs, second_serial) <==> (
        first_secs == second_secs && first_serial == second_serial),
{
    let first = temp_path(first_secs, first_serial);
    let second = temp_path(second_secs, second_serial);
    if first == second {
        reveal_strlit("/tmp/badge_");
        reveal_strlit("_");
        reveal_strlit(".jpg");
        let a = decimal(first_secs as nat);
        let m = decimal(first_serial as nat);
        let b = decimal(second_secs as nat);
        let n = decimal(second_serial as nat);
        lemma_decimal_is_digits(first_secs as nat);
        lemma_decimal_is_digits(second_secs as nat);
        assert(first.len() == 11 + a.len() + 1 + m.len() + 4);
        assert(second.len() == 11 + b.len() + 1 + n.len() + 4);
        // The second is written up to the first character that is no digit.
        if a.len() < b.len() {
            assert(first[11 + a.len() as int] == '_');
            assert(second[11 + a.len() as int] == b[a.len() as int]);
            assert(is_digit(b[a.len() as int]));
        } else if b.len() < a.len() {
            assert(second[11 + b.len() as int] == '_');
            assert(first[11 + b.len() as int] == a[b.len() as int]);
            assert(is_digit(a[b.len() as int]));
        }
        assert(first.subrange(11, 11 + a.len() as int) == a);
        assert(second.subrange(11, 11 + b.len() as int) == b);
        assert(first.subrange(12 + a.len() as int, 12 + a.len() as int + m.len() as int) == m);
        assert(second.subrange(12 + b.len() as int, 12 + b.len() as int + n.len() as int) == n);
        law_decimal_is_injective(first_secs as nat, second_secs as nat);
        law_decimal_is_injective(first_serial as nat, second_serial as nat);
    }
}

} // verus!
