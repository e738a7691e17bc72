//! The transfer progress page: its title, counters and buttons.

use vstd::prelude::*;
use crate::fmt::{decimal, file_size_text, format_file_size};
use crate::history::{TransferDirection, TransferStatus};

verus! {

/// One file of a transfer in progress.
#[derive(Clone, Debug)]
pub struct ProgressFile {
    pub file_id: String,
    pub file_name: String,
    pub file_size: u64,
    pub bytes_transferred: u64,
    pub status: TransferStatus,
}

/// What the page reads of the latest transfer in its direction.
#[derive(Clone, Debug)]
pub struct ProgressSnapshot {
    pub status: TransferStatus,
    pub speed_bytes_per_sec: u64,
    pub file_name: String,
    pub files: Vec<ProgressFile>,
}

/// The page title.
pub fn direction_label(d: TransferDirection) -> (s: &'static str)
    ensures
        s@ == match d {
            TransferDirection::Send => "发送中"@,
            TransferDirection::Receive => "接收中"@,
        },
{
    match d {
        TransferDirection::Send => "发送中",
        TransferDirection::Receive => "接收中",
    }
}

pub open spec fn completed_files(files: Seq<ProgressFile>) -> nat
    decreases files.len(),
{
    if files.len() == 0 {
        0
    } else {
        completed_files(files.drop_last()) + (if files.last().status == TransferStatus::Completed {
            1nat
        } else {
            0nat
        })
    }
}

/// `completed/total`, or `0/0` with no transfer.
pub open spec fn file_count_text(t: Option<ProgressSnapshot>) -> Seq<char> {
    match t {
        Some(t) => decimal(completed_files(t.files@)) + "/"@ + decimal(t.files@.len()),
        None => "0/0"@,
    }
}

/// The speed line: the speed and `/s` while bytes move, else nothing.
pub open spec fn speed_text(t: Option<ProgressSnapshot>) -> Seq<char> {
    match t {
        Some(t) => if t.speed_bytes_per_sec > 0 {
            file_size_text(t.speed_bytes_per_sec as nat) + "/s"@
        } else {
            Seq::empty()
        },
        None => Seq::empty(),
    }
}

/// The status a page without a transfer shows.
pub open spec fn shown_status(t: Option<ProgressSnapshot>) -> TransferStatus {
    match t {
        Some(t) => t.status,
        None => TransferStatus::Pending,
    }
}

/// A transfer is over once it completed, failed or was cancelled.
pub open spec fn is_done_status(s: TransferStatus) -> bool {
    s == TransferStatus::Completed || s == TransferStatus::Failed || s == TransferStatus::Cancelled
}

/// The texts and buttons of the page.
#[derive(Clone, Debug)]
pub struct ProgressView {
    pub file_count: String,
    pub speed: String,
    /// `当前文件：` and the name, when there is one.
    pub current_file: Option<String>,
    /// The bottom button reads `完成` (else `取消`, which cancels).
    pub is_done: bool,
    /// A retry button in the header.
    pub show_retry: bool,
}

pub open spec fn view_matches(v: ProgressView, d: TransferDirection, t: Option<ProgressSnapshot>) -> bool {
    &&& v.file_count@ == file_count_text(t)
    &&& v.speed@ == speed_text(t)
    &&& match t {
        Some(t) => if t.file_name@.len() == 0 {
            v.current_file is None
        } else {
            v.current_file is Some && v.current_file->0@ == "当前文件："@ + t.file_name@
        },
        None => v.current_file is None,
    }
    &&& v.is_done == is_done_status(shown_status(t))
    &&& v.show_retry == (d == TransferDirection::Send && shown_status(t) != TransferStatus::InProgress)
}

pub fn progress_view(d: TransferDirection, t: Option<&ProgressSnapshot>) -> (v: ProgressView)
    ensures
        view_matches(
            v,
            d,
            match t {
                Some(x) => Some(*x),
                None => None,
            },
        ),
{
    match t {
        None => ProgressView {
            file_count: "0/0".to_owned(),
            speed: String::new(),
            current_file: None,
            is_done: false,
            show_retry: matches!(d, TransferDirection::Send),
        },
        Some(t) => {
            let files = &t.files;
            let mut done: u64 = 0;
            let mut i: usize = 0;
            while i < files.len()
                invariant
                    0 <= i <= files@.len(),
                    done == completed_files(files@.subrange(0, i as int)),
                    done <= i,
                decreases files@.len() - i,
            {
                assert(files@.subrange(0, i + 1).drop_last() == files@.subrange(0, i as int));
                if matches!(files[i].status, TransferStatus::Completed) {
                    done = done + 1;
                }
                i = i + 1;
            }
            assert(files@.subrange(0, files@.len() as int) == files@);
            let mut count: Vec<char> = Vec::new();
            crate::fmt::push_decimal(&mut count, done);
            count.push('/');
            crate::fmt::push_decimal(&mut count, files.len() as u64);
            proof {
                reveal_strlit("/");
            }
            let speed = if t.speed_bytes_per_sec > 0 {
                let mut s = format_file_size(t.speed_bytes_per_sec);
                s.append("/s");
                s
            } else {
                String::new()
            };
            let current = if crate::text::chars_of(t.file_name.as_str()).len() == 0 {
                None
            } else {
                Some(crate::text::concat_str("当前文件：", t.file_name.as_str()))
            };
            let status = t.status;
            let file_count = crate::text::string_of(count.as_slice());
            assert(file_count@ == file_count_text(Some(*t)));
            assert(speed@ == speed_text(Some(*t)));
            ProgressView {
                file_count,
                speed,
                current_file: current,
                is_done: matches!(
                    status,
                    TransferStatus::Completed | TransferStatus::Failed | TransferStatus::Cancelled
                ),
                show_retry: matches!(d, TransferDirection::Send) && !matches!(
                    status,
                    TransferStatus::InProgress
                ),
            }
        },
    }
}

/// The bottom button reads 完成 exactly when the shown transfer completed,
/// failed or was cancelled (a page with no transfer is not done), and the
/// header offers a retry on a send page unless the transfer is running.
pub proof fn lemma_done_and_retry(v: ProgressView, d: TransferDirection, t: Option<ProgressSnapshot>)
    requires
        view_matches(v, d, t),
    ensures
        v.is_done <==> (t matches Some(x) && (x.status == TransferStatus::Completed || x.status
            == TransferStatus::Failed || x.status == TransferStatus::Cancelled)),
        v.show_retry <==> (d == TransferDirection::Send && !(t matches Some(x) && x.status
            == TransferStatus::InProgress)),
{
}

} // verus!
