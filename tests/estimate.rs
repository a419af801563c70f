use search_image::config::NetworkKind;
use search_image::estimate::AsyncExtractor;
use std::time::Duration;

#[test]
fn model_size_estimates() {
    assert_eq!(AsyncExtractor::get_model_size_estimate(NetworkKind::Small), 50 * 1024 * 1024);
    assert_eq!(AsyncExtractor::get_model_size_estimate(NetworkKind::Medium), 100 * 1024 * 1024);
    assert_eq!(AsyncExtractor::get_model_size_estimate(NetworkKind::Large), 200 * 1024 * 1024);
    assert_eq!(
        AsyncExtractor::get_model_size_estimate(NetworkKind::HybridMedium),
        150 * 1024 * 1024
    );
    assert_eq!(
        AsyncExtractor::get_model_size_estimate(NetworkKind::HybridLarge),
        300 * 1024 * 1024
    );
}

#[test]
fn download_duration_estimates() {
    assert_eq!(
        AsyncExtractor::get_download_duration_estimate(NetworkKind::Small),
        Duration::from_secs(5)
    );
    assert_eq!(
        AsyncExtractor::get_download_duration_estimate(NetworkKind::Medium),
        Duration::from_secs(10)
    );
    assert_eq!(
        AsyncExtractor::get_download_duration_estimate(NetworkKind::HybridMedium),
        Duration::from_secs(15)
    );
    assert_eq!(AsyncExtractor::get_download_secs_estimate(NetworkKind::Large), 20);
    assert_eq!(AsyncExtractor::get_download_secs_estimate(NetworkKind::HybridLarge), 30);
}
