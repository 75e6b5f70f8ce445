use manti::usage::aggregator::StreamUsageAggregator;

#[test]
fn test_estimation_fallback() {
    let mut agg = StreamUsageAggregator::new();
    agg.completion_chars = 400; // ~100 tokens

    assert_eq!(agg.estimate_completion_tokens(), 100);
}

#[test]
fn test_actual_usage_preferred() {
    let mut agg = StreamUsageAggregator::new();
    agg.completion_chars = 400;
    agg.completion_tokens = 50; // Actual value from API

    assert_eq!(agg.estimate_completion_tokens(), 50);
}
