use d3os_virtio::device_tests::{test_rng, RngReport};
use d3os_virtio::error::Error;

#[test]
fn random_bytes_are_reported() {
    let buffer = [1, 2, 3, 4, 5, 6, 7, 8, 9, 10];
    assert!(matches!(
        test_rng(Some(Ok(3)), buffer),
        RngReport::Received { bytes } if bytes == vec![1, 2, 3]
    ));
    assert!(matches!(
        test_rng(Some(Ok(10)), buffer),
        RngReport::Received { bytes } if bytes == buffer.to_vec()
    ));
}

#[test]
fn missing_or_failing_entropy_is_reported() {
    assert!(matches!(test_rng(None, [0; 10]), RngReport::Missing));
    assert!(matches!(
        test_rng(Some(Err(Error::NotReady)), [0; 10]),
        RngReport::Failed { error: Error::NotReady }
    ));
}
