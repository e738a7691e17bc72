use nearsend::history::{TransferDirection, TransferStatus};
use nearsend::progress::{direction_label, progress_view, ProgressFile, ProgressSnapshot};

fn pf(status: TransferStatus) -> ProgressFile {
    ProgressFile {
        file_id: "f".to_string(),
        file_name: "f.bin".to_string(),
        file_size: 10,
        bytes_transferred: 0,
        status,
    }
}

#[test]
fn progress_page() {
    assert_eq!(direction_label(TransferDirection::Send), "发送中");
    assert_eq!(direction_label(TransferDirection::Receive), "接收中");
    let v = progress_view(TransferDirection::Send, None);
    assert_eq!(v.file_count, "0/0");
    assert_eq!(v.speed, "");
    assert!(!v.is_done);
    assert!(v.show_retry);
    let snap = ProgressSnapshot {
        status: TransferStatus::InProgress,
        speed_bytes_per_sec: 2048,
        file_name: "2 个项目".to_string(),
        files: vec![pf(TransferStatus::Completed), pf(TransferStatus::InProgress)],
    };
    let v = progress_view(TransferDirection::Send, Some(&snap));
    assert_eq!(v.file_count, "1/2");
    assert_eq!(v.speed, "2.0 KB/s");
    assert_eq!(v.current_file.as_deref(), Some("当前文件：2 个项目"));
    assert!(!v.is_done);
    assert!(!v.show_retry);
    let done = ProgressSnapshot {
        status: TransferStatus::Failed,
        speed_bytes_per_sec: 0,
        file_name: String::new(),
        files: vec![],
    };
    let v = progress_view(TransferDirection::Receive, Some(&done));
    assert!(v.is_done);
    assert!(!v.show_retry);
    assert_eq!(v.current_file, None);
    assert_eq!(v.speed, "");
}
