pub mod aggregator;
