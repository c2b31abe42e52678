use dir_mover::ratio::Ratio;
use dir_mover::types::{
    ApiResponse, DirectoryInfo, ErrorInfo, PaginatedResponse, PathValidationResult, ProgressInfo,
};

fn percent(r: Ratio) -> f64 {
    if r.whole == 0 {
        0.0
    } else {
        (r.part as f64 / r.whole as f64) * 100.0
    }
}

#[test]
fn test_api_response() {
    let data = DirectoryInfo {
        path: "/test".to_string(),
        name: "test".to_string(),
        size: 1024,
        file_count: 10,
        subdirectories: Vec::new(),
    };

    let response = ApiResponse::success(data.clone());
    assert!(response.success);
    assert!(response.data.is_some());
    assert!(response.error.is_none());

    let error_response = ApiResponse::<DirectoryInfo>::error("测试错误".to_string());
    assert!(!error_response.success);
    assert!(error_response.data.is_none());
    assert!(error_response.error.is_some());
}

#[test]
fn test_progress_info() {
    let mut progress = ProgressInfo::new("扫描", "/test/path");
    assert_eq!(progress.operation, "扫描");
    assert_eq!(percent(progress.percentage), 0.0);

    progress.update_progress(50, 100);
    assert_eq!(percent(progress.percentage), 50.0);
    assert_eq!(progress.processed, 50);
    assert_eq!(progress.total, 100);
}

#[test]
fn test_path_validation_result() {
    let valid = PathValidationResult::valid("路径有效");
    assert!(valid.valid);
    assert_eq!(valid.message, "路径有效");

    let invalid = PathValidationResult::invalid("路径无效");
    assert!(!invalid.valid);
    assert_eq!(invalid.message, "路径无效");
}

#[test]
fn suggestions_are_appended_in_order() {
    let r = PathValidationResult::invalid("路径无效")
        .with_suggestion("first")
        .with_suggestion("second");
    assert_eq!(r.suggestions, vec!["first".to_string(), "second".to_string()]);
    assert!(!r.valid);
}

#[test]
fn error_info_carries_details() {
    let e = ErrorInfo::new("E1", "boom");
    assert_eq!(e.code, "E1");
    assert_eq!(e.message, "boom");
    assert!(e.details.is_none());
    let e = e.with_details("more");
    assert_eq!(e.details, Some("more".to_string()));
}

#[test]
fn progress_status_can_be_replaced() {
    let mut progress = ProgressInfo::new("迁移", "item");
    assert_eq!(progress.status, "运行中");
    progress.set_status("done");
    assert_eq!(progress.status, "done");
    assert_eq!(progress.operation, "迁移");
}

#[test]
fn page_count_rounds_up() {
    let r = PaginatedResponse::new(vec![1, 2, 3], 1, 3, 10);
    assert_eq!(r.pagination.total_pages, 4);
    assert_eq!(r.pagination.page, 1);
    assert_eq!(r.pagination.page_size, 3);
    assert_eq!(r.pagination.total, 10);
    assert_eq!(r.items, vec![1, 2, 3]);
    assert_eq!(PaginatedResponse::new(Vec::<u8>::new(), 1, 5, 10).pagination.total_pages, 2);
    assert_eq!(PaginatedResponse::new(Vec::<u8>::new(), 1, 5, 0).pagination.total_pages, 0);
    assert_eq!(PaginatedResponse::new(Vec::<u8>::new(), 1, 0, 0).pagination.total_pages, 0);
    assert_eq!(PaginatedResponse::new(Vec::<u8>::new(), 1, 0, 7).pagination.total_pages, u32::MAX);
    assert_eq!(
        PaginatedResponse::new(Vec::<u8>::new(), 1, 1, u64::MAX).pagination.total_pages,
        u32::MAX
    );
}
