//! Download bookkeeping: statuses and the toasts that report them.

use vstd::prelude::*;
use crate::text::{concat2, owned};

verus! {

broadcast use vstd::string::group_string_axioms;

/// The status of a download that has started.
pub const STATUS_IN_PROGRESS: &'static str = "in_progress";

/// The name shown for a download whose file name is unknown.
pub open spec fn shown_name(file_name: Option<Seq<char>>) -> Seq<char> {
    match file_name {
        Some(n) => n,
        None => "file"@,
    }
}

fn shown_name_of(file_name: Option<&str>) -> (n: &str)
    ensures
        n@ == shown_name(
            match file_name {
                Some(f) => Some(f@),
                None => None,
            },
        ),
{
    match file_name {
        Some(f) => f,
        None => "file",
    }
}

/// The toast announcing a download of the file `file_name`.
pub fn download_started_message(file_name: Option<&str>) -> (m: String)
    ensures
        m@ == "Downloading "@ + shown_name(
            match file_name {
                Some(f) => Some(f@),
                None => None,
            },
        ),
{
    concat2("Downloading ", shown_name_of(file_name))
}

/// How a finished download is recorded and announced.
pub struct DownloadReport {
    /// `completed` or `failed`.
    pub status: String,
    /// The toast's text.
    pub message: String,
    /// `success` or `error`.
    pub toast_type: String,
}

/// The status, toast text and toast type for a finished download of the
/// file `file_name`.
pub fn download_finished_report(success: bool, file_name: Option<&str>) -> (r: DownloadReport)
    ensures
        ({
            let name = shown_name(
                match file_name {
                    Some(f) => Some(f@),
                    None => None,
                },
            );
            if success {
                &&& r.status@ == "completed"@
                &&& r.message@ == "Finished downloading "@ + name
                &&& r.toast_type@ == "success"@
            } else {
                &&& r.status@ == "failed"@
                &&& r.message@ == "Failed to download "@ + name
                &&& r.toast_type@ == "error"@
            }
        }),
{
    let name = shown_name_of(file_name);
    if success {
        DownloadReport {
            status: owned("completed"),
            message: concat2("Finished downloading ", name),
            toast_type: owned("success"),
        }
    } else {
        DownloadReport {
            status: owned("failed"),
            message: concat2("Failed to download ", name),
            toast_type: owned("error"),
        }
    }
}

} // verus!
