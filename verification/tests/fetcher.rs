use read_metadata::fetcher::{
    body_received, head_received, BodyFetch, FetchStep, HeadFetch, FAVICON_MAX_BYTES,
};

#[test]
fn the_bound_is_four_million_bytes() {
    assert_eq!(FAVICON_MAX_BYTES, 4_000_000);
}

#[test]
fn failed_request_is_skipped() {
    assert_eq!(head_received(HeadFetch::Failed, 100), FetchStep::Skip);
}

#[test]
fn unsuccessful_status_is_skipped() {
    let head = HeadFetch::Response { success: false, content_length: Some(3) };
    assert_eq!(head_received(head, 100), FetchStep::Skip);
    let head = HeadFetch::Response { success: false, content_length: None };
    assert_eq!(head_received(head, 100), FetchStep::Skip);
}

#[test]
fn declared_length_over_the_bound_is_skipped() {
    let head = HeadFetch::Response { success: true, content_length: Some(4_000_001) };
    assert_eq!(head_received(head, FAVICON_MAX_BYTES), FetchStep::Skip);
    let head = HeadFetch::Response { success: true, content_length: Some(u64::MAX) };
    assert_eq!(head_received(head, FAVICON_MAX_BYTES), FetchStep::Skip);
}

#[test]
fn declared_length_at_the_bound_is_read() {
    let head = HeadFetch::Response { success: true, content_length: Some(4_000_000) };
    assert_eq!(
        head_received(head, FAVICON_MAX_BYTES),
        FetchStep::ReadBody { limit: 4_000_000 }
    );
}

#[test]
fn declared_length_within_the_bound_is_read() {
    let head = HeadFetch::Response { success: true, content_length: Some(0) };
    assert_eq!(head_received(head, 10), FetchStep::ReadBody { limit: 10 });
    let head = HeadFetch::Response { success: true, content_length: Some(9) };
    assert_eq!(head_received(head, 10), FetchStep::ReadBody { limit: 10 });
}

#[test]
fn unknown_length_is_read() {
    let head = HeadFetch::Response { success: true, content_length: None };
    assert_eq!(head_received(head, 10), FetchStep::ReadBody { limit: 10 });
}

#[test]
fn broken_read_yields_nothing() {
    assert_eq!(body_received(BodyFetch::Failed, 10), Vec::<u8>::new());
}

#[test]
fn body_within_the_bound_is_kept_whole() {
    assert_eq!(body_received(BodyFetch::Complete(vec![0, 1, 2]), 10), vec![0, 1, 2]);
    assert_eq!(body_received(BodyFetch::Complete(vec![0, 1, 2]), 3), vec![0, 1, 2]);
    assert_eq!(body_received(BodyFetch::Complete(vec![]), 0), Vec::<u8>::new());
}

#[test]
fn body_over_the_bound_is_cut_to_it() {
    assert_eq!(body_received(BodyFetch::Complete(vec![9, 8, 7, 6, 5]), 3), vec![9, 8, 7]);
    assert_eq!(body_received(BodyFetch::Complete(vec![1]), 0), Vec::<u8>::new());
}

#[test]
fn body_of_a_lying_server_is_cut_to_four_million_bytes() {
    let mut body = vec![7u8; 4_000_001];
    body[0] = 1;
    body[3_999_999] = 2;
    let kept = body_received(BodyFetch::Complete(body), FAVICON_MAX_BYTES);
    assert_eq!(kept.len(), 4_000_000);
    assert_eq!(kept[0], 1);
    assert_eq!(kept[3_999_999], 2);
}
