//! Events that the station pushes to the user interface.

use vstd::prelude::*;

verus! {

/// An outbound event: its kind and what it carries.
#[derive(Debug, PartialEq, Eq)]
pub enum Notice {
    /// A QR code was read from a frame.
    CodeDetected { text: String },
    /// A preview of a captured frame, as text-safe JPEG bytes.
    CameraFrame { preview: String },
    /// A badge was handed to a printer.
    BadgePrinted { job_id: u64 },
    /// A badge could not be printed.
    BadgePrintError { message: String },
}

/// What a `Notice` is, over mathematical text.
pub enum NoticeView {
    CodeDetected { text: Seq<char> },
    CameraFrame { preview: Seq<char> },
    BadgePrinted { job_id: u64 },
    BadgePrintError { message: Seq<char> },
}

impl NoticeView {
    /// The name under which the event is published.
    pub open spec fn name(self) -> Seq<char> {
        match self {
            NoticeView::CodeDetected { .. } => "qrcode_detected"@,
            NoticeView::CameraFrame { .. } => "camera_frame"@,
            NoticeView::BadgePrinted { .. } => "badge_printed"@,
            NoticeView::BadgePrintError { .. } => "badge_print_error"@,
        }
    }
}

impl View for Notice {
    type V = NoticeView;

    open spec fn view(&self) -> NoticeView {
        match self {
            Notice::CodeDetected { text } => NoticeView::CodeDetected { text: text@ },
            Notice::CameraFrame { preview } => NoticeView::CameraFrame { preview: preview@ },
            Notice::BadgePrinted { job_id } => NoticeView::BadgePrinted { job_id: *job_id },
            Notice::BadgePrintError { message } => NoticeView::BadgePrintError {
                message: message@,
            },
        }
    }
}

impl Notice {
    /// The name under which the event is published.
    pub fn name(&self) -> (name: &'static str)
        ensures
            name@ == self@.name(),
    {
        match self {
            Notice::CodeDetected { .. } => "qrcode_detected",
            Notice::CameraFrame { .. } => "camera_frame",
            Notice::BadgePrinted { .. } => "badge_printed",
            Notice::BadgePrintError { .. } => "badge_print_error",
        }
    }
}

impl Clone for Notice {
    fn clone(&self) -> (copy: Self)
        ensures
            copy == *self,
    {
        match self {
            Notice::CodeDetected { text } => Notice::CodeDetected { text: text.clone() },
            Notice::CameraFrame { preview } => Notice::CameraFrame { preview: preview.clone() },
            Notice::BadgePrinted { job_id } => Notice::BadgePrinted { job_id: *job_id },
            Notice::BadgePrintError { message } => Notice::BadgePrintError {
                message: message.clone(),
            },
        }
    }
}

} // verus!
