pub mod metrics_calculator;
