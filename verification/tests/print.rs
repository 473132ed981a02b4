use badge_station::event::Notice;
use badge_station::print::{
    advance, begin, preferred_printer, replay, temp_file_path, JobOptions, PrintAction,
    PrintEvent, PrintFailure, PrintState, Target,
};

fn path() -> String {
    String::from("/tmp/badge_1700000000_7.jpg")
}

fn raw_single_copy() -> JobOptions {
    JobOptions {
        name: None,
        raw_properties: vec![
            (String::from("document-format"), String::from("application/vnd.cups-raw")),
            (String::from("copies"), String::from("1")),
        ],
    }
}

fn plain() -> JobOptions {
    JobOptions { name: None, raw_properties: vec![] }
}

fn error(message: &str) -> Notice {
    Notice::BadgePrintError { message: String::from(message) }
}

#[test]
fn the_preferred_printer_is_called_pdf() {
    assert_eq!(preferred_printer(), "PDF");
}

#[test]
fn job_options_hold_their_properties() {
    assert_eq!(JobOptions::plain(), plain());
    assert_eq!(JobOptions::raw_single_copy(), raw_single_copy());
}

#[test]
fn temp_file_path_is_named_after_the_second_and_the_number_of_the_job() {
    assert_eq!(temp_file_path(0, 0), "/tmp/badge_0_0.jpg");
    assert_eq!(temp_file_path(1700000000, 7), "/tmp/badge_1700000000_7.jpg");
    assert_eq!(temp_file_path(17, 0), "/tmp/badge_17_0.jpg");
    assert_eq!(temp_file_path(1, 70), "/tmp/badge_1_70.jpg");
    assert_eq!(
        temp_file_path(u64::MAX, u64::MAX),
        "/tmp/badge_18446744073709551615_18446744073709551615.jpg"
    );
}

#[test]
fn jobs_of_one_second_have_files_of_their_own() {
    let mut paths: Vec<String> = Vec::new();
    for serial in 0..200u64 {
        paths.push(temp_file_path(1700000000, serial));
    }
    for secs in [0u64, 1, 11, 111, 1700000001] {
        for serial in [0u64, 1, 11, 111] {
            paths.push(temp_file_path(secs, serial));
        }
    }
    for i in 0..paths.len() {
        for j in 0..i {
            assert_ne!(paths[i], paths[j]);
        }
    }
}

#[test]
fn two_jobs_that_begin_in_the_same_second_write_to_different_files() {
    let (first_state, first_action) = begin("Zm9v", 1700000000, 0);
    let (second_state, second_action) = begin("YmFy", 1700000000, 1);
    assert_eq!(first_state, PrintState::Writing { path: String::from("/tmp/badge_1700000000_0.jpg") });
    assert_eq!(second_state, PrintState::Writing { path: String::from("/tmp/badge_1700000000_1.jpg") });
    assert_eq!(
        first_action,
        PrintAction::WriteFile {
            path: String::from("/tmp/badge_1700000000_0.jpg"),
            bytes: b"foo".to_vec()
        }
    );
    assert_eq!(
        second_action,
        PrintAction::WriteFile {
            path: String::from("/tmp/badge_1700000000_1.jpg"),
            bytes: b"bar".to_vec()
        }
    );
}

#[test]
fn failures_are_put_in_words() {
    let detail = || String::from("boom");
    assert_eq!(
        PrintFailure::MalformedPayload { detail: detail() }.message(),
        "Failed to decode base64: boom"
    );
    assert_eq!(PrintFailure::WriteFailed { detail: detail() }.message(), "Failed to write file: boom");
    assert_eq!(PrintFailure::PreferredPrinter { detail: detail() }.message(), "PDF printer error: boom");
    assert_eq!(PrintFailure::NoDefaultPrinter.message(), "No default printer found");
    assert_eq!(PrintFailure::DefaultPrinter { detail: detail() }.message(), "Default printer error: boom");
    assert_eq!(PrintFailure::NoDefaultPrinter.notice(), error("No default printer found"));
}

#[test]
fn begin_writes_the_decoded_image_to_the_temporary_file() {
    assert_eq!(
        begin("/9j/4A==", 1700000000, 7),
        (
            PrintState::Writing { path: path() },
            PrintAction::WriteFile { path: path(), bytes: vec![0xff, 0xd8, 0xff, 0xe0] }
        )
    );
}

#[test]
fn begin_reports_an_image_that_does_not_decode_and_writes_nothing() {
    let (state, action) = begin("***", 1700000000, 7);
    assert!(state.is_done());
    assert_eq!(
        action,
        PrintAction::Publish(error("Failed to decode base64: Invalid symbol 42, offset 0."))
    );
    assert_eq!(advance(&state, &PrintEvent::Written), None);
    assert_eq!(replay(state, &vec![PrintEvent::Written]), None);
}

#[test]
fn begin_takes_an_empty_image() {
    assert_eq!(
        begin("", 5, 3),
        (
            PrintState::Writing { path: String::from("/tmp/badge_5_3.jpg") },
            PrintAction::WriteFile { path: String::from("/tmp/badge_5_3.jpg"), bytes: vec![] }
        )
    );
}

#[test]
fn a_written_file_is_offered_to_the_preferred_printer_first() {
    assert_eq!(
        advance(&PrintState::Writing { path: path() }, &PrintEvent::Written),
        Some((
            PrintState::SeekingPreferred { path: path() },
            PrintAction::FindPrinter { name: String::from("PDF") }
        ))
    );
}

#[test]
fn a_file_that_cannot_be_written_is_reported() {
    assert_eq!(
        advance(
            &PrintState::Writing { path: path() },
            &PrintEvent::WriteFailed { detail: String::from("disk full") }
        ),
        Some((PrintState::Done, PrintAction::Publish(error("Failed to write file: disk full"))))
    );
}

#[test]
fn the_preferred_printer_gets_the_file_with_plain_options() {
    assert_eq!(
        advance(&PrintState::SeekingPreferred { path: path() }, &PrintEvent::PrinterFound),
        Some((
            PrintState::SendingToPreferred { path: path() },
            PrintAction::Submit {
                printer: Target::Named(String::from("PDF")),
                path: path(),
                options: plain()
            }
        ))
    );
}

#[test]
fn without_the_preferred_printer_the_default_printer_is_looked_up() {
    assert_eq!(
        advance(&PrintState::SeekingPreferred { path: path() }, &PrintEvent::PrinterMissing),
        Some((PrintState::SeekingDefault { path: path() }, PrintAction::FindDefaultPrinter))
    );
}

#[test]
fn the_default_printer_gets_the_file_raw_in_one_copy() {
    assert_eq!(
        advance(&PrintState::SeekingDefault { path: path() }, &PrintEvent::PrinterFound),
        Some((
            PrintState::SendingToDefault { path: path() },
            PrintAction::Submit {
                printer: Target::SystemDefault,
                path: path(),
                options: raw_single_copy()
            }
        ))
    );
}

#[test]
fn without_any_printer_the_file_is_removed_and_the_failure_kept() {
    assert_eq!(
        advance(&PrintState::SeekingDefault { path: path() }, &PrintEvent::PrinterMissing),
        Some((
            PrintState::Removing { report: error("No default printer found") },
            PrintAction::RemoveFile { path: path() }
        ))
    );
}

#[test]
fn a_taken_job_is_kept_for_the_report_while_the_file_is_removed() {
    for state in [
        PrintState::SendingToPreferred { path: path() },
        PrintState::SendingToDefault { path: path() },
    ] {
        assert_eq!(
            advance(&state, &PrintEvent::Submitted { job_id: 42 }),
            Some((
                PrintState::Removing { report: Notice::BadgePrinted { job_id: 42 } },
                PrintAction::RemoveFile { path: path() }
            ))
        );
    }
}

#[test]
fn a_refused_job_names_the_printer_that_refused_it() {
    let refused = PrintEvent::SubmitFailed { detail: String::from("cups is down") };
    assert_eq!(
        advance(&PrintState::SendingToPreferred { path: path() }, &refused),
        Some((
            PrintState::Removing { report: error("PDF printer error: cups is down") },
            PrintAction::RemoveFile { path: path() }
        ))
    );
    assert_eq!(
        advance(&PrintState::SendingToDefault { path: path() }, &refused),
        Some((
            PrintState::Removing { report: error("Default printer error: cups is down") },
            PrintAction::RemoveFile { path: path() }
        ))
    );
}

#[test]
fn the_report_is_published_after_the_removal_however_it_went() {
    for deleted in [true, false] {
        assert_eq!(
            advance(
                &PrintState::Removing { report: Notice::BadgePrinted { job_id: 7 } },
                &PrintEvent::Removed { deleted }
            ),
            Some((PrintState::Done, PrintAction::Publish(Notice::BadgePrinted { job_id: 7 })))
        );
    }
}

#[test]
fn a_print_event_out_of_turn_is_refused() {
    assert_eq!(advance(&PrintState::Writing { path: path() }, &PrintEvent::PrinterFound), None);
    assert_eq!(advance(&PrintState::SeekingPreferred { path: path() }, &PrintEvent::Written), None);
    assert_eq!(
        advance(&PrintState::SendingToDefault { path: path() }, &PrintEvent::Removed { deleted: true }),
        None
    );
    assert_eq!(
        advance(
            &PrintState::Removing { report: Notice::BadgePrinted { job_id: 7 } },
            &PrintEvent::Submitted { job_id: 7 }
        ),
        None
    );
}

#[test]
fn a_finished_job_takes_no_event() {
    let events = vec![
        PrintEvent::Written,
        PrintEvent::WriteFailed { detail: String::new() },
        PrintEvent::PrinterFound,
        PrintEvent::PrinterMissing,
        PrintEvent::Submitted { job_id: 1 },
        PrintEvent::SubmitFailed { detail: String::new() },
        PrintEvent::Removed { deleted: true },
    ];
    for event in &events {
        assert_eq!(advance(&PrintState::Done, event), None);
    }
    assert!(PrintState::Done.is_done());
    assert!(!PrintState::Writing { path: path() }.is_done());
}

fn job(events: Vec<PrintEvent>) -> Vec<PrintAction> {
    let (state, first) = begin("Zm9v", 1700000000, 7);
    assert_eq!(first, PrintAction::WriteFile { path: path(), bytes: b"foo".to_vec() });
    let (end, actions) = replay(state, &events).unwrap();
    assert!(end.is_done());
    actions
}

#[test]
fn a_job_through_the_preferred_printer() {
    let actions = job(vec![
        PrintEvent::Written,
        PrintEvent::PrinterFound,
        PrintEvent::Submitted { job_id: 12 },
        PrintEvent::Removed { deleted: true },
    ]);
    assert_eq!(
        actions,
        vec![
            PrintAction::FindPrinter { name: String::from("PDF") },
            PrintAction::Submit {
                printer: Target::Named(String::from("PDF")),
                path: path(),
                options: plain()
            },
            PrintAction::RemoveFile { path: path() },
            PrintAction::Publish(Notice::BadgePrinted { job_id: 12 }),
        ]
    );
}

#[test]
fn a_job_through_the_default_printer() {
    let actions = job(vec![
        PrintEvent::Written,
        PrintEvent::PrinterMissing,
        PrintEvent::PrinterFound,
        PrintEvent::Submitted { job_id: 13 },
        PrintEvent::Removed { deleted: true },
    ]);
    assert_eq!(
        actions,
        vec![
            PrintAction::FindPrinter { name: String::from("PDF") },
            PrintAction::FindDefaultPrinter,
            PrintAction::Submit {
                printer: Target::SystemDefault,
                path: path(),
                options: raw_single_copy()
            },
            PrintAction::RemoveFile { path: path() },
            PrintAction::Publish(Notice::BadgePrinted { job_id: 13 }),
        ]
    );
}

#[test]
fn the_file_is_removed_when_the_printer_refuses_the_job() {
    let actions = job(vec![
        PrintEvent::Written,
        PrintEvent::PrinterMissing,
        PrintEvent::PrinterFound,
        PrintEvent::SubmitFailed { detail: String::from("out of paper") },
        PrintEvent::Removed { deleted: false },
    ]);
    assert_eq!(actions.len(), 5);
    assert_eq!(actions[3], PrintAction::RemoveFile { path: path() });
    assert_eq!(actions[4], PrintAction::Publish(error("Default printer error: out of paper")));
}

#[test]
fn the_file_is_removed_when_there_is_no_printer() {
    let actions = job(vec![
        PrintEvent::Written,
        PrintEvent::PrinterMissing,
        PrintEvent::PrinterMissing,
        PrintEvent::Removed { deleted: true },
    ]);
    assert_eq!(
        actions,
        vec![
            PrintAction::FindPrinter { name: String::from("PDF") },
            PrintAction::FindDefaultPrinter,
            PrintAction::RemoveFile { path: path() },
            PrintAction::Publish(error("No default printer found")),
        ]
    );
}

#[test]
fn a_job_whose_file_cannot_be_written_ends_with_the_report() {
    let actions = job(vec![PrintEvent::WriteFailed { detail: String::from("read-only") }]);
    assert_eq!(actions, vec![PrintAction::Publish(error("Failed to write file: read-only"))]);
}

#[test]
fn replay_refuses_events_after_the_end() {
    let (state, _) = begin("Zm9v", 1, 0);
    let events = vec![
        PrintEvent::WriteFailed { detail: String::from("x") },
        PrintEvent::Removed { deleted: true },
    ];
    assert_eq!(replay(state, &events), None);
}
