//! Tests for CLI argument parsing, validation, and the output record.

use paperless_ngx_ocr2::cli::{
    validate_file_path, CLIErrorData, CLIOutput, CLISuccessData, Cli,
};
use paperless_ngx_ocr2::Error;

#[test]
fn test_cli_parsing_required_arguments() {
    // Test with required file argument
    let args = vec!["paperless-ngx-ocr2", "--file", "test.pdf", "--api-key", "test-key"];
    let cli = Cli::try_parse_from(args).expect("Should parse required arguments");

    assert_eq!(cli.file, "test.pdf");
    assert_eq!(cli.api_key, Some("test-key".to_string()));
    assert!(!cli.json);
    assert!(!cli.verbose);
}

#[test]
fn test_cli_parsing_all_arguments() {
    let args = vec![
        "paperless-ngx-ocr2",
        "--file",
        "document.pdf",
        "--api-key",
        "sk-test123",
        "--api-base-url",
        "https://custom.api.url",
        "--json",
        "--verbose",
    ];

    let cli = Cli::try_parse_from(args).expect("Should parse all arguments");

    assert_eq!(cli.file, "document.pdf");
    assert_eq!(cli.api_key, Some("sk-test123".to_string()));
    assert_eq!(cli.api_base_url, Some("https://custom.api.url".to_string()));
    assert!(cli.json);
    assert!(cli.verbose);
}

#[test]
fn test_cli_parsing_missing_required_file() {
    let args = vec!["paperless-ngx-ocr2", "--api-key", "test-key"];
    let result = Cli::try_parse_from(args);

    assert!(result.is_err());
}

#[test]
fn test_cli_parsing_short_flags_and_errors() {
    let cli = Cli::try_parse_from(vec!["prog", "-f", "a.pdf", "-a", "key", "-v"])
        .expect("Should parse short flags");
    assert_eq!(cli.file, "a.pdf");
    assert_eq!(cli.api_key, Some("key".to_string()));
    assert!(cli.verbose);

    // An option without its value fails the parse.
    assert!(Cli::try_parse_from(vec!["prog", "--file"]).is_err());
    // An unknown word fails the parse.
    assert!(Cli::try_parse_from(vec!["prog", "--file", "a.pdf", "--bogus"]).is_err());
}

#[test]
fn test_cli_validation_valid_arguments() {
    let cli = Cli {
        file: "test.pdf".to_string(),
        api_key: Some("sk-test123".to_string()),
        api_base_url: Some("https://api.mistral.ai".to_string()),
        json: false,
        verbose: false,
    };

    assert!(cli.validate().is_ok());
}

#[test]
fn test_cli_validation_empty_file() {
    let cli = Cli {
        file: "".to_string(),
        api_key: Some("sk-test123".to_string()),
        api_base_url: None,
        json: false,
        verbose: false,
    };

    assert!(cli.validate().is_err());
    assert!(matches!(cli.validate().unwrap_err(), Error::Validation(_)));
}

#[test]
fn test_cli_validation_empty_api_key() {
    let cli = Cli {
        file: "test.pdf".to_string(),
        api_key: Some("".to_string()),
        api_base_url: None,
        json: false,
        verbose: false,
    };

    assert!(cli.validate().is_err());
    assert!(matches!(cli.validate().unwrap_err(), Error::Config(_)));
}

#[test]
fn test_cli_validation_empty_api_base_url() {
    let cli = Cli {
        file: "test.pdf".to_string(),
        api_key: Some("sk-test123".to_string()),
        api_base_url: Some("".to_string()),
        json: false,
        verbose: false,
    };

    assert!(cli.validate().is_err());
    assert!(matches!(cli.validate().unwrap_err(), Error::Config(_)));
}

#[test]
fn test_cli_output_structure_validation() {
    // Valid success output
    let success_output = CLIOutput {
        success: true,
        data: Some(CLISuccessData {
            extracted_text: "Sample text".to_string(),
            file_name: "test.pdf".to_string(),
            file_size: 1024,
            processing_time_ms: 2000,
            confidence: None,
        }),
        error: None,
    };
    assert!(success_output.validate().is_ok());

    // Valid error output
    let error_output = CLIOutput {
        success: false,
        data: None,
        error: Some(CLIErrorData {
            error_type: "validation".to_string(),
            message: "Test error".to_string(),
            details: None,
        }),
    };
    assert!(error_output.validate().is_ok());

    // Invalid output (both data and error)
    let invalid_output = CLIOutput {
        success: true,
        data: Some(CLISuccessData {
            extracted_text: "Text".to_string(),
            file_name: "test.pdf".to_string(),
            file_size: 1024,
            processing_time_ms: 1000,
            confidence: None,
        }),
        error: Some(CLIErrorData {
            error_type: "internal".to_string(),
            message: "Should not have both".to_string(),
            details: None,
        }),
    };
    assert!(invalid_output.validate().is_err());
}

#[test]
fn test_validate_file_path_extensions() {
    assert!(validate_file_path("document.pdf").is_ok());
    assert!(validate_file_path("photo.PNG").is_ok());
    assert!(validate_file_path("a/b/c/scan.Jpeg").is_ok());
    assert!(validate_file_path("pics/img.jpg").is_ok());

    // Unsupported extension: a validation failure.
    let txt = validate_file_path("notes.txt");
    assert!(matches!(txt, Err(Error::Validation(_))));

    // No extension at all.
    let bare = validate_file_path("document");
    assert!(matches!(bare, Err(Error::Validation(_))));

    // A hidden file's leading dot is not an extension.
    assert!(validate_file_path(".pdf").is_err());
    assert!(validate_file_path("dir/.pdf").is_err());
}

#[test]
fn test_completion_scripts() {
    let cli = Cli {
        file: "x.pdf".to_string(),
        api_key: None,
        api_base_url: None,
        json: false,
        verbose: false,
    };

    let bash = cli.generate_completion_script("bash").expect("bash should be supported");
    assert!(bash.contains("complete -F _paperless_ngx_ocr2_completion"));

    let zsh = cli.generate_completion_script("ZSH").expect("shell names fold case");
    assert!(zsh.starts_with("#compdef paperless-ngx-ocr2"));

    let fish = cli.generate_completion_script("fish").expect("fish should be supported");
    assert!(fish.contains("complete -c paperless-ngx-ocr2"));

    let ps = cli.generate_completion_script("powershell").expect("powershell should be supported");
    assert!(ps.contains("Register-ArgumentCompleter"));

    let unknown = cli.generate_completion_script("tcsh");
    assert!(matches!(unknown, Err(Error::Config(_))));
}

#[test]
fn test_show_version_and_help() {
    let version = paperless_ngx_ocr2::cli::show_version();
    assert_eq!(version, "paperless-ngx-ocr2 0.1.0");

    let help = paperless_ngx_ocr2::cli::show_help_with_examples();
    assert!(help.contains("USAGE:"));
    assert!(help.contains("--file <FILE>"));
    assert!(help.contains("EXIT CODES:"));
}
