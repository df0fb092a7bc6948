//! A screen capture: where the image is written, and what follows the
//! capture and the recognition.

use vstd::prelude::*;

use crate::history::{time_of_day, time_of_day_label, HistoryEntry};
use crate::ocr::OcrError;
use crate::text::{decimal, join_path, joined_path, push_separator, push_decimal, push_str, string_of};

verus! {

/// The name of a temporary file: prefix, process id, time in milliseconds
/// and extension, as in `shot-42-1700000000000.png`.
pub open spec fn temp_file_name(prefix: Seq<char>, extension: Seq<char>, pid: u32, millis: u128) -> Seq<char> {
    prefix + seq!['-'] + decimal(pid as nat) + seq!['-'] + decimal(millis as nat) + seq!['.']
        + extension
}

/// The path of a temporary file in the directory `temp_dir`, named after the
/// process id and the time in milliseconds since the Unix epoch.
pub fn temp_path(temp_dir: &str, prefix: &str, extension: &str, pid: u32, millis: u128) -> (r: String)
    ensures
        r@ == joined_path(temp_dir@, temp_file_name(prefix@, extension@, pid, millis)),
{
    let mut name = string_of(prefix);
    push_separator(&mut name, '-');
    push_decimal(&mut name, pid as u128);
    push_separator(&mut name, '-');
    push_decimal(&mut name, millis);
    push_separator(&mut name, '.');
    push_str(&mut name, extension);
    join_path(temp_dir, name.as_str())
}

/// The path that a capture writes its image to.
pub fn screenshot_path(temp_dir: &str, pid: u32, millis: u128) -> (r: String)
    ensures
        r@ == joined_path(temp_dir@, temp_file_name("tray-ocr-screenshot"@, "png"@, pid, millis)),
{
    temp_path(temp_dir, "tray-ocr-screenshot", "png", pid, millis)
}

/// How the capture tool ended.
#[derive(Debug)]
pub enum CaptureStatus {
    /// The tool could not be started, with the system's message.
    LaunchFailed(String),
    /// The tool ran and exited, successfully or not (the user may have
    /// cancelled the selection).
    Exited { success: bool },
}

/// What follows the capture.
#[derive(Debug)]
pub enum CaptureStep {
    /// Recognize the text in the captured image.
    Recognize,
    /// Tell the user that nothing was captured; remove the image file where
    /// asked.
    Report { notification: String, remove_file: bool },
}

/// Decides what follows the capture.
pub fn after_capture(status: &CaptureStatus) -> (r: CaptureStep)
    ensures
        match status {
            CaptureStatus::Exited { success: true } => r is Recognize,
            CaptureStatus::Exited { success: false } => r matches CaptureStep::Report {
                notification,
                remove_file,
            } && notification@ == "Screenshot cancelled or failed"@ && remove_file,
            CaptureStatus::LaunchFailed(e) => r matches CaptureStep::Report {
                notification,
                remove_file,
            } && notification@ == "Screenshot failed: "@ + e@ && !remove_file,
        },
{
    match status {
        CaptureStatus::Exited { success } => {
            if *success {
                CaptureStep::Recognize
            } else {
                CaptureStep::Report {
                    notification: string_of("Screenshot cancelled or failed"),
                    remove_file: true,
                }
            }
        },
        CaptureStatus::LaunchFailed(e) => {
            let mut notification = string_of("Screenshot failed: ");
            push_str(&mut notification, e.as_str());
            CaptureStep::Report { notification, remove_file: false }
        },
    }
}

/// The id of a history entry: the time in milliseconds, cut to 64 bits.
pub fn history_entry_id(millis: u128) -> (r: u64)
    ensures
        r == millis % 0x1_0000_0000_0000_0000,
{
    let r = millis as u64;
    assert(r == millis % 0x1_0000_0000_0000_0000) by (bit_vector)
        requires
            r == millis as u64,
    ;
    r
}

/// What follows a recognition; the image file is removed in every case.
#[derive(Debug)]
pub struct RecognitionReaction {
    /// The text to put on the clipboard.
    pub copy_text: Option<String>,
    /// The entry to add to the history.
    pub history_entry: Option<HistoryEntry>,
    /// Whether the tray menu is rebuilt.
    pub refresh_tray_menu: bool,
    /// The body of the notification shown.
    pub notification: String,
}

/// Decides what follows a recognition, given its result, the time in
/// milliseconds since the Unix epoch and the local hour and minute.
pub fn after_recognition(result: Result<String, OcrError>, millis: u128, hour: u32, minute: u32) -> (r:
    RecognitionReaction)
    ensures
        match result {
            Ok(text) => {
                &&& r.copy_text matches Some(c) && c@ == text@
                &&& r.history_entry matches Some(e) && e.id == millis % 0x1_0000_0000_0000_0000
                    && e.text@ == text@ && e.timestamp@ == time_of_day(hour, minute)
                &&& r.refresh_tray_menu
                &&& r.notification@ == "Copied to clipboard"@
            },
            Err(OcrError::NoTextRecognized) => {
                &&& r.copy_text is None
                &&& r.history_entry is None
                &&& !r.refresh_tray_menu
                &&& r.notification@ == "No text found"@
            },
            Err(OcrError::Error(e)) => {
                &&& r.copy_text is None
                &&& r.history_entry is None
                &&& !r.refresh_tray_menu
                &&& r.notification@ == "OCR failed: "@ + e@
            },
        },
{
    match result {
        Ok(text) => {
            let copy = string_of(text.as_str());
            let entry = HistoryEntry {
                id: history_entry_id(millis),
                text,
                timestamp: time_of_day_label(hour, minute),
            };
            RecognitionReaction {
                copy_text: Some(copy),
                history_entry: Some(entry),
                refresh_tray_menu: true,
                notification: string_of("Copied to clipboard"),
            }
        },
        Err(OcrError::NoTextRecognized) => RecognitionReaction {
            copy_text: None,
            history_entry: None,
            refresh_tray_menu: false,
            notification: string_of("No text found"),
        },
        Err(OcrError::Error(e)) => {
            let mut notification = string_of("OCR failed: ");
            push_str(&mut notification, e.as_str());
            RecognitionReaction {
                copy_text: None,
                history_entry: None,
                refresh_tray_menu: false,
                notification,
            }
        },
    }
}

} // verus!
