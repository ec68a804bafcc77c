use xocsp::admission::{
    header_size_mw, req_timeout_mw, MAX_HEADER_PER_SIZE, MAX_HEADER_TOTAL_SIZE, RATE_LIMIT_BURST,
    RATE_LIMIT_PER_SEC, REQ_HEADER_TIMEOUT_SEC, REQ_PROC_TIMEOUT_SEC,
};
use xocsp::delivery::Response;
use xocsp::failure::Failure;

#[test]
fn limits_have_their_values() {
    assert_eq!(MAX_HEADER_PER_SIZE, 2048);
    assert_eq!(MAX_HEADER_TOTAL_SIZE, 8192);
    assert_eq!(REQ_PROC_TIMEOUT_SEC, 2);
    assert_eq!(REQ_HEADER_TIMEOUT_SEC, 3);
    assert_eq!(RATE_LIMIT_BURST, 10);
    assert_eq!(RATE_LIMIT_PER_SEC, 5);
}

#[test]
fn one_oversized_header_is_rejected() {
    assert_eq!(header_size_mw(&vec![3000]), Err(Failure::AdmissionRejected));
    assert_eq!(header_size_mw(&vec![10, 3000, 10]), Err(Failure::AdmissionRejected));
}

#[test]
fn many_small_headers_over_the_total_are_rejected() {
    // 90 headers of 100 bytes: 9000 bytes together.
    assert_eq!(header_size_mw(&vec![100; 90]), Err(Failure::AdmissionRejected));
}

#[test]
fn headers_at_the_limits_are_admitted() {
    assert_eq!(header_size_mw(&vec![]), Ok(()));
    assert_eq!(header_size_mw(&vec![2048]), Ok(()));
    assert_eq!(header_size_mw(&vec![2048, 2048, 2048, 2048]), Ok(()));
    assert_eq!(header_size_mw(&vec![0, 0, 0]), Ok(()));
}

#[test]
fn headers_one_byte_over_a_limit_are_rejected() {
    assert_eq!(header_size_mw(&vec![2049]), Err(Failure::AdmissionRejected));
    assert_eq!(header_size_mw(&vec![2048, 2048, 2048, 2048, 1]), Err(Failure::AdmissionRejected));
    assert_eq!(header_size_mw(&vec![1, 2048, 2048, 2048, 2048]), Err(Failure::AdmissionRejected));
}

#[test]
fn huge_sizes_do_not_overflow() {
    assert_eq!(header_size_mw(&vec![usize::MAX, usize::MAX]), Err(Failure::AdmissionRejected));
    assert_eq!(header_size_mw(&vec![2048, usize::MAX]), Err(Failure::AdmissionRejected));
}

#[test]
fn verdict_does_not_depend_on_order() {
    let mut sizes = vec![2000, 2000, 2000, 2000, 100, 92];
    assert_eq!(header_size_mw(&sizes), Ok(()));
    sizes.reverse();
    assert_eq!(header_size_mw(&sizes), Ok(()));
    sizes.push(1);
    assert_eq!(header_size_mw(&sizes), Err(Failure::AdmissionRejected));
    sizes.reverse();
    assert_eq!(header_size_mw(&sizes), Err(Failure::AdmissionRejected));
}

#[test]
fn timeout_is_reported_with_408() {
    let response = req_timeout_mw(None);
    assert_eq!(response.status(), 408);
    assert!(matches!(response, Response::Rejected(Failure::Timeout)));
}

#[test]
fn answer_in_time_is_handed_on() {
    let response = req_timeout_mw(Some(Response::NotModified));
    assert_eq!(response.status(), 304);
    let response = req_timeout_mw(Some(Response::Rejected(Failure::NotFound)));
    assert_eq!(response.status(), 404);
}

#[test]
fn failures_have_their_status() {
    assert_eq!(Failure::NotFound.status(), 404);
    assert_eq!(Failure::BuildFailure.status(), 500);
    assert_eq!(Failure::StoreFailure.status(), 500);
    assert_eq!(Failure::AdmissionRejected.status(), 431);
    assert_eq!(Failure::Timeout.status(), 408);
}
