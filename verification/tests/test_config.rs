//! Tests for configuration validation, defaults, overrides, and the
//! backoff-delay rule.

use paperless_ngx_ocr2::{Config, Error, RetryPolicy};

/// Test configuration for API and CLI settings.
#[derive(Debug, Clone)]
pub struct TestConfig {
    pub api_key: String,
    pub api_base_url: String,
    pub timeout_seconds: u64,
    pub max_file_size_mb: u64,
    pub log_level: String,
    pub json_output: bool,
    pub verbose: bool,
}

impl Default for TestConfig {
    fn default() -> Self {
        Self {
            api_key: "test-api-key".to_string(),
            api_base_url: "https://api.test.com".to_string(),
            timeout_seconds: 30,
            max_file_size_mb: 100,
            log_level: "info".to_string(),
            json_output: false,
            verbose: false,
        }
    }
}

/// Test configuration builder for more complex scenarios.
pub struct TestConfigBuilder {
    config: TestConfig,
}

impl TestConfigBuilder {
    pub fn new() -> Self {
        Self { config: TestConfig::default() }
    }

    pub fn api_key(mut self, key: &str) -> Self {
        self.config.api_key = key.to_string();
        self
    }

    pub fn timeout(mut self, timeout: u64) -> Self {
        self.config.timeout_seconds = timeout;
        self
    }

    pub fn json_output(mut self, enabled: bool) -> Self {
        self.config.json_output = enabled;
        self
    }

    pub fn build(self) -> TestConfig {
        self.config
    }
}

#[test]
fn test_default_config() {
    let config = TestConfig::default();
    assert_eq!(config.api_key, "test-api-key");
    assert_eq!(config.api_base_url, "https://api.test.com");
    assert_eq!(config.timeout_seconds, 30);
}

#[test]
fn test_config_builder() {
    let config = TestConfigBuilder::new()
        .api_key("custom-key")
        .timeout(60)
        .json_output(true)
        .build();

    assert_eq!(config.api_key, "custom-key");
    assert_eq!(config.timeout_seconds, 60);
    assert!(config.json_output);
}

#[test]
fn test_default_values() {
    let config = Config::default();

    assert_eq!(config.api_base_url, "https://api.mistral.ai");
    assert_eq!(config.timeout_seconds, 30);
    assert_eq!(config.max_file_size_mb, 100);
    assert_eq!(config.log_level, "info");
    assert!(config.api_key.is_empty());
}

#[test]
fn test_validation_valid_config() {
    let config = Config {
        api_key: "sk-test123456789".to_string(),
        api_base_url: "https://api.mistral.ai".to_string(),
        timeout_seconds: 30,
        max_file_size_mb: 50,
        log_level: "info".to_string(),
        retry_policy: RetryPolicy::default(),
    };

    assert!(config.validate().is_ok());
}

#[test]
fn test_validation_empty_api_key() {
    let config = Config {
        api_key: "".to_string(),
        api_base_url: "https://api.mistral.ai".to_string(),
        timeout_seconds: 30,
        max_file_size_mb: 50,
        log_level: "info".to_string(),
        retry_policy: RetryPolicy::default(),
    };

    assert!(config.validate().is_err());
}

#[test]
fn test_validation_invalid_url() {
    let config = Config {
        api_key: "sk-test123".to_string(),
        api_base_url: "not-a-valid-url".to_string(),
        timeout_seconds: 30,
        max_file_size_mb: 50,
        log_level: "info".to_string(),
        retry_policy: RetryPolicy::default(),
    };

    assert!(config.validate().is_err());
}

#[test]
fn test_validation_timeout_range() {
    // Test timeout too low
    let config_low = Config {
        api_key: "sk-test123".to_string(),
        api_base_url: "https://api.mistral.ai".to_string(),
        timeout_seconds: 0,
        max_file_size_mb: 50,
        log_level: "info".to_string(),
        retry_policy: RetryPolicy::default(),
    };
    assert!(config_low.validate().is_err());

    // Test timeout too high
    let config_high = Config {
        api_key: "sk-test123".to_string(),
        api_base_url: "https://api.mistral.ai".to_string(),
        timeout_seconds: 301,
        max_file_size_mb: 50,
        log_level: "info".to_string(),
        retry_policy: RetryPolicy::default(),
    };
    assert!(config_high.validate().is_err());
}

#[test]
fn test_validation_file_size_range() {
    // Test file size too low
    let config_low = Config {
        api_key: "sk-test123".to_string(),
        api_base_url: "https://api.mistral.ai".to_string(),
        timeout_seconds: 30,
        max_file_size_mb: 0,
        log_level: "info".to_string(),
        retry_policy: RetryPolicy::default(),
    };
    assert!(config_low.validate().is_err());

    // Test file size too high
    let config_high = Config {
        api_key: "sk-test123".to_string(),
        api_base_url: "https://api.mistral.ai".to_string(),
        timeout_seconds: 30,
        max_file_size_mb: 101,
        log_level: "info".to_string(),
        retry_policy: RetryPolicy::default(),
    };
    assert!(config_high.validate().is_err());
}

#[test]
fn test_validation_log_level() {
    let valid_levels = ["error", "warn", "info", "debug", "trace"];

    for level in valid_levels {
        let config = Config {
            api_key: "sk-test123".to_string(),
            api_base_url: "https://api.mistral.ai".to_string(),
            timeout_seconds: 30,
            max_file_size_mb: 50,
            log_level: level.to_string(),
            retry_policy: RetryPolicy::default(),
        };
        assert!(config.validate().is_ok(), "Level '{}' should be valid", level);
    }

    // Test invalid log level
    let config_invalid = Config {
        api_key: "sk-test123".to_string(),
        api_base_url: "https://api.mistral.ai".to_string(),
        timeout_seconds: 30,
        max_file_size_mb: 50,
        log_level: "invalid".to_string(),
        retry_policy: RetryPolicy::default(),
    };
    assert!(config_invalid.validate().is_err());
}

#[test]
fn test_retry_policy_validation() {
    assert!(RetryPolicy::default().validate().is_ok());

    let too_many = RetryPolicy { max_retries: 11, ..RetryPolicy::default() };
    assert!(too_many.validate().is_err());

    let zero_base = RetryPolicy { base_delay_ms: 0, ..RetryPolicy::default() };
    assert!(zero_base.validate().is_err());

    let max_below_base = RetryPolicy {
        base_delay_ms: 5000,
        max_delay_ms: 1000,
        ..RetryPolicy::default()
    };
    assert!(max_below_base.validate().is_err());

    let jitter_too_big = RetryPolicy { jitter_factor_permille: 1001, ..RetryPolicy::default() };
    assert!(jitter_too_big.validate().is_err());
}

#[test]
fn test_calculate_delay_exact_values() {
    let policy = RetryPolicy::default();

    // Attempt zero waits for nothing.
    assert_eq!(policy.calculate_delay_with(0, 0), 0);

    // A draw in the middle of the range applies no jitter.
    assert_eq!(policy.calculate_delay_with(1, 1000), 1000);
    assert_eq!(policy.calculate_delay_with(2, 1000), 2000);
    assert_eq!(policy.calculate_delay_with(3, 1000), 4000);

    // The largest positive draw adds the full ten-percent jitter.
    assert_eq!(policy.calculate_delay_with(3, 2000), 4400);

    // The smallest draw subtracts the full ten-percent jitter.
    assert_eq!(policy.calculate_delay_with(3, 0), 3600);
}

#[test]
fn test_calculate_delay_respects_cap_and_floor() {
    let policy = RetryPolicy {
        max_retries: 5,
        base_delay_ms: 8000,
        max_delay_ms: 10000,
        exponential_backoff: true,
        jitter_factor_permille: 0,
    };

    // 8000 * 2 = 16000 is clamped to the cap.
    assert_eq!(policy.calculate_delay_with(2, 777), 10000);

    // A randomized delay stays within [1, cap].
    let d = policy.calculate_delay(3);
    assert!(d >= 1);
    assert!(d <= 10000);
}

#[test]
fn test_apply_env_overrides_precedence() {
    let mut config = Config::default();
    config.apply_env_overrides(
        Some("env-key".to_string()),
        None,
        Some(60),
        None,
        Some("debug".to_string()),
    );

    assert_eq!(config.api_key, "env-key");
    assert_eq!(config.api_base_url, "https://api.mistral.ai");
    assert_eq!(config.timeout_seconds, 60);
    assert_eq!(config.max_file_size_mb, 100);
    assert_eq!(config.log_level, "debug");
}

#[test]
fn test_config_default_values() {
    let config = Config::default();

    assert_eq!(config.api_base_url, "https://api.mistral.ai");
    assert_eq!(config.timeout_seconds, 30);
    assert_eq!(config.max_file_size_mb, 100);
    assert_eq!(config.log_level, "info");
    assert!(config.api_key.is_empty()); // Default is empty, set via CLI/env
}

#[test]
fn test_config_validation_valid() {
    let config = Config {
        api_key: "sk-test123456789".to_string(),
        api_base_url: "https://api.mistral.ai".to_string(),
        timeout_seconds: 30,
        max_file_size_mb: 50,
        log_level: "info".to_string(),
        retry_policy: RetryPolicy::default(),
    };

    assert!(config.validate().is_ok());
}

#[test]
fn test_config_validation_empty_api_key() {
    let config = Config {
        api_key: "".to_string(),
        api_base_url: "https://api.mistral.ai".to_string(),
        timeout_seconds: 30,
        max_file_size_mb: 50,
        log_level: "info".to_string(),
        retry_policy: RetryPolicy::default(),
    };

    assert!(config.validate().is_err());
    assert!(matches!(config.validate().unwrap_err(), Error::Config(_)));
}

#[test]
fn test_config_validation_invalid_url() {
    let config = Config {
        api_key: "sk-test123".to_string(),
        api_base_url: "not-a-valid-url".to_string(),
        timeout_seconds: 30,
        max_file_size_mb: 50,
        log_level: "info".to_string(),
        retry_policy: RetryPolicy::default(),
    };

    assert!(config.validate().is_err());
    assert!(matches!(config.validate().unwrap_err(), Error::Config(_)));
}

#[test]
fn test_config_validation_timeout_range() {
    // Test timeout too low
    let config_low = Config {
        api_key: "sk-test123".to_string(),
        api_base_url: "https://api.mistral.ai".to_string(),
        timeout_seconds: 0,
        max_file_size_mb: 50,
        log_level: "info".to_string(),
        retry_policy: RetryPolicy::default(),
    };
    assert!(config_low.validate().is_err());

    // Test timeout too high
    let config_high = Config {
        api_key: "sk-test123".to_string(),
        api_base_url: "https://api.mistral.ai".to_string(),
        timeout_seconds: 301,
        max_file_size_mb: 50,
        log_level: "info".to_string(),
        retry_policy: RetryPolicy::default(),
    };
    assert!(config_high.validate().is_err());

    // Test valid timeout
    let config_valid = Config {
        api_key: "sk-test123".to_string(),
        api_base_url: "https://api.mistral.ai".to_string(),
        timeout_seconds: 60,
        max_file_size_mb: 50,
        log_level: "info".to_string(),
        retry_policy: RetryPolicy::default(),
    };
    assert!(config_valid.validate().is_ok());
}

#[test]
fn test_config_validation_file_size_range() {
    // Test file size too low
    let config_low = Config {
        api_key: "sk-test123".to_string(),
        api_base_url: "https://api.mistral.ai".to_string(),
        timeout_seconds: 30,
        max_file_size_mb: 0,
        log_level: "info".to_string(),
        retry_policy: RetryPolicy::default(),
    };
    assert!(config_low.validate().is_err());

    // Test file size too high
    let config_high = Config {
        api_key: "sk-test123".to_string(),
        api_base_url: "https://api.mistral.ai".to_string(),
        timeout_seconds: 30,
        max_file_size_mb: 101,
        log_level: "info".to_string(),
        retry_policy: RetryPolicy::default(),
    };
    assert!(config_high.validate().is_err());
}

#[test]
fn test_config_validation_log_level() {
    let valid_levels = ["error", "warn", "info", "debug", "trace"];

    for level in valid_levels {
        let config = Config {
            api_key: "sk-test123".to_string(),
            api_base_url: "https://api.mistral.ai".to_string(),
            timeout_seconds: 30,
            max_file_size_mb: 50,
            log_level: level.to_string(),
            retry_policy: RetryPolicy::default(),
        };
        assert!(config.validate().is_ok(), "Level '{}' should be valid", level);
    }

    // Test invalid log level
    let config_invalid = Config {
        api_key: "sk-test123".to_string(),
        api_base_url: "https://api.mistral.ai".to_string(),
        timeout_seconds: 30,
        max_file_size_mb: 50,
        log_level: "verbose".to_string(),
        retry_policy: RetryPolicy::default(),
    };
    assert!(config_invalid.validate().is_err());
}
