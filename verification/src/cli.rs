//! The command-line surface: the parsed arguments, their validation, the
//! structured output record, the file-path check, and the shell-completion
//! scripts.

use vstd::prelude::*;

use crate::error::Error;
use crate::file::last_sep_end;
use crate::text::{eq_lowered, lower_chars, str_eq};

verus! {

/// CLI output structure for the JSON format.
#[derive(Debug)]
pub struct CLIOutput {
    pub success: bool,
    pub data: Option<CLISuccessData>,
    pub error: Option<CLIErrorData>,
}

/// Success data structure for CLI JSON output.
#[derive(Debug)]
pub struct CLISuccessData {
    pub extracted_text: String,
    pub file_name: String,
    pub file_size: i64,
    pub processing_time_ms: i64,
    pub confidence: Option<i64>,
}

/// Error data structure for CLI JSON output.
#[derive(Debug)]
pub struct CLIErrorData {
    pub error_type: String,
    pub message: String,
    pub details: Option<String>,
}

impl CLIOutput {
    /// Validate the output structure: success carries data and no error,
    /// failure carries an error and no data; anything else is malformed.
    pub fn validate(&self) -> (r: Result<(), Error>)
        ensures
            r is Ok <==> ((self.success && self.data is Some && self.error is None) || (
            !self.success && self.data is None && self.error is Some)),
            r matches Err(e) ==> e is Validation,
    {
        let well_formed = if self.success {
            self.data.is_some() && self.error.is_none()
        } else {
            self.data.is_none() && self.error.is_some()
        };
        if well_formed {
            Ok(())
        } else {
            Err(
                Error::Validation(
                    String::from_str(
                        "CLI output must have either data (success=true) or error (success=false), not both",
                    ),
                ),
            )
        }
    }
}

/// The command-line arguments of one invocation.
#[derive(Debug)]
pub struct Cli {
    /// File to process for OCR.
    pub file: String,
    /// API key for the OCR service.
    pub api_key: Option<String>,
    /// API base URL.
    pub api_base_url: Option<String>,
    /// Output the result as JSON instead of human-readable text.
    pub json: bool,
    /// Enable verbose logging output.
    pub verbose: bool,
}

/// The state built up while parsing arguments: the three optional values
/// and the two flags.
pub type ArgState = (Option<Seq<char>>, Option<Seq<char>>, Option<Seq<char>>, bool, bool);

/// Parse the arguments after the program name: each option takes the word
/// after it, each flag stands alone, and anything unknown fails the parse.
pub open spec fn spec_parse_args(args: Seq<Seq<char>>, st: ArgState) -> Option<ArgState>
    decreases args.len(),
{
    if args.len() == 0 {
        Some(st)
    } else if args[0] == "--file"@ || args[0] == "-f"@ {
        if args.len() >= 2 {
            spec_parse_args(args.skip(2), (Some(args[1]), st.1, st.2, st.3, st.4))
        } else {
            None
        }
    } else if args[0] == "--api-key"@ || args[0] == "-a"@ {
        if args.len() >= 2 {
            spec_parse_args(args.skip(2), (st.0, Some(args[1]), st.2, st.3, st.4))
        } else {
            None
        }
    } else if args[0] == "--api-base-url"@ {
        if args.len() >= 2 {
            spec_parse_args(args.skip(2), (st.0, st.1, Some(args[1]), st.3, st.4))
        } else {
            None
        }
    } else if args[0] == "--json"@ {
        spec_parse_args(args.skip(1), (st.0, st.1, st.2, true, st.4))
    } else if args[0] == "--verbose"@ || args[0] == "-v"@ {
        spec_parse_args(args.skip(1), (st.0, st.1, st.2, st.3, true))
    } else {
        None
    }
}

/// Whether a parsed `Cli` carries exactly the values of a parse state
/// whose file is present.
pub open spec fn cli_matches_state(c: Cli, st: ArgState) -> bool {
    &&& st.0 == Some(c.file@)
    &&& (match (c.api_key, st.1) {
        (Some(k), Some(v)) => k@ == v,
        (None, None) => true,
        _ => false,
    })
    &&& (match (c.api_base_url, st.2) {
        (Some(u), Some(v)) => u@ == v,
        (None, None) => true,
        _ => false,
    })
    &&& c.json == st.3
    &&& c.verbose == st.4
}

/// The views of a vector of string slices.
pub open spec fn views_of(args: Seq<&str>) -> Seq<Seq<char>> {
    args.map(|_i: int, a: &str| a@)
}

impl Cli {
    /// Parse a full argument vector, program name first.  The parse fails
    /// on an unknown word, on an option without a value, and when no file
    /// was named.
    pub fn try_parse_from(args: Vec<&str>) -> (r: Result<Cli, Error>)
        ensures
            r is Ok <==> (args@.len() >= 1 && (spec_parse_args(
                views_of(args@).skip(1),
                (None, None, None, false, false),
            ) matches Some(st) && st.0 is Some)),
            r matches Ok(c) ==> (spec_parse_args(
                views_of(args@).skip(1),
                (None, None, None, false, false),
            ) matches Some(st) && cli_matches_state(c, st)),
            r matches Err(e) ==> e is Validation,
    {
        let ghost argseq = views_of(args@);
        let n = args.len();
        if n == 0 {
            return Err(Error::Validation(String::from_str("No arguments were given")));
        }
        let mut file: Option<String> = None;
        let mut api_key: Option<String> = None;
        let mut api_base_url: Option<String> = None;
        let mut json: bool = false;
        let mut verbose: bool = false;
        let mut i: usize = 1;
        proof {
            assert(argseq.skip(1).skip(0) =~= argseq.skip(1));
        }
        while i < n
            invariant
                1 <= i <= n,
                n == args@.len(),
                argseq == views_of(args@),
                argseq.len() == n,
                spec_parse_args(argseq.skip(1), (None, None, None, false, false))
                    == spec_parse_args(
                    argseq.skip(i as int),
                    (
                        (match file {
                            Some(ref f) => Some(f@),
                            None => None,
                        }),
                        (match api_key {
                            Some(ref k) => Some(k@),
                            None => None,
                        }),
                        (match api_base_url {
                            Some(ref u) => Some(u@),
                            None => None,
                        }),
                        json,
                        verbose,
                    ),
                ),
            decreases n - i,
        {
            let arg = args[i];
            proof {
                assert(argseq.skip(i as int)[0] == arg@);
                assert(argseq.skip(i as int).len() == n - i);
            }
            if str_eq(arg, "--file") || str_eq(arg, "-f") {
                if i + 1 >= n {
                    return Err(
                        Error::Validation(String::from_str("Option --file expects a value")),
                    );
                }
                proof {
                    assert(argseq.skip(i as int)[1] == argseq[i + 1]);
                    assert(argseq.skip(i as int).skip(2) =~= argseq.skip(i + 2));
                }
                file = Some(String::from_str(args[i + 1]));
                i += 2;
            } else if str_eq(arg, "--api-key") || str_eq(arg, "-a") {
                if i + 1 >= n {
                    return Err(
                        Error::Validation(String::from_str("Option --api-key expects a value")),
                    );
                }
                proof {
                    assert(argseq.skip(i as int)[1] == argseq[i + 1]);
                    assert(argseq.skip(i as int).skip(2) =~= argseq.skip(i + 2));
                }
                api_key = Some(String::from_str(args[i + 1]));
                i += 2;
            } else if str_eq(arg, "--api-base-url") {
                if i + 1 >= n {
                    return Err(
                        Error::Validation(
                            String::from_str("Option --api-base-url expects a value"),
                        ),
                    );
                }
                proof {
                    assert(argseq.skip(i as int)[1] == argseq[i + 1]);
                    assert(argseq.skip(i as int).skip(2) =~= argseq.skip(i + 2));
                }
                api_base_url = Some(String::from_str(args[i + 1]));
                i += 2;
            } else if str_eq(arg, "--json") {
                proof {
                    assert(argseq.skip(i as int).skip(1) =~= argseq.skip(i + 1));
                }
                json = true;
                i += 1;
            } else if str_eq(arg, "--verbose") || str_eq(arg, "-v") {
                proof {
                    assert(argseq.skip(i as int).skip(1) =~= argseq.skip(i + 1));
                }
                verbose = true;
                i += 1;
            } else {
                return Err(Error::Validation(String::from_str("Unknown argument")));
            }
        }
        proof {
            assert(argseq.skip(n as int) =~= Seq::<Seq<char>>::empty());
        }
        match file {
            Some(f) => Ok(Cli { file: f, api_key, api_base_url, json, verbose }),
            None => Err(
                Error::Validation(
                    String::from_str("File path is required for OCR processing"),
                ),
            ),
        }
    }

    /// Validate the parsed arguments: the file path must be non-empty, and
    /// a key or base URL that was given must not be empty either.
    pub fn validate(&self) -> (r: Result<(), Error>)
        ensures
            r is Ok <==> (self.file@.len() > 0 && (match self.api_key {
                Some(k) => k@.len() > 0,
                None => true,
            }) && (match self.api_base_url {
                Some(u) => u@.len() > 0,
                None => true,
            })),
            r matches Err(e) ==> (e is Validation || e is Config),
            self.file@.len() == 0 ==> (r matches Err(e) && e is Validation),
    {
        if self.file.as_str().unicode_len() == 0 {
            return Err(Error::Validation(String::from_str("File path cannot be empty")));
        }
        if let Some(k) = &self.api_key {
            if k.as_str().unicode_len() == 0 {
                return Err(Error::Config(String::from_str("API key cannot be empty")));
            }
        }
        if let Some(u) = &self.api_base_url {
            if u.as_str().unicode_len() == 0 {
                return Err(Error::Config(String::from_str("API base URL cannot be empty")));
            }
        }
        Ok(())
    }

    /// Generate the completion script for a shell; the shell name is read
    /// case-insensitively.
    pub fn generate_completion_script(&self, shell: &str) -> (r: Result<String, Error>)
        ensures
            r is Ok <==> shell_supported(lower_chars(shell@)),
            r matches Ok(s) ==> s@ == spec_completion_script(lower_chars(shell@)),
            r matches Err(e) ==> e is Config,
    {
        proof {
            reveal_strlit("bash");
            reveal_strlit("zsh");
            reveal_strlit("fish");
            reveal_strlit("powershell");
            reveal_strlit("ps1");
            assert(lower_chars("bash"@) =~= "bash"@);
            assert(lower_chars("zsh"@) =~= "zsh"@);
            assert(lower_chars("fish"@) =~= "fish"@);
            assert(lower_chars("powershell"@) =~= "powershell"@);
            assert(lower_chars("ps1"@) =~= "ps1"@);
        }
        if eq_lowered(shell, "bash") {
            Ok(String::from_str("# Bash completion for paperless-ngx-ocr2\ncomplete -F _paperless_ngx_ocr2_completion paperless-ngx-ocr2\n\n_paperless_ngx_ocr2_completion() {\n    local cur prev opts\n    COMPREPLY=()\n    cur=\"${COMP_WORDS[COMP_CWORD]}\"\n    prev=\"${COMP_WORDS[COMP_CWORD-1]}\"\n\n    opts=\"-f --file -a --api-key --api-base-url --config --json -v --verbose -h --help -V --version --completions\"\n\n    case \"${prev}\" in\n        -f|--file)\n            COMPREPLY=( $(compgen -f -- \"$cur\") )\n            return 0\n            ;;\n        -a|--api-key)\n            return 0\n            ;;\n        --api-base-url)\n            return 0\n            ;;\n        --config)\n            COMPREPLY=( $(compgen -f -- \"$cur\") )\n            return 0\n            ;;\n        --completions)\n            COMPREPLY=( $(compgen -W \"bash zsh fish powershell\" -- \"$cur\") )\n            return 0\n            ;;\n    esac\n\n    if [[ $cur == -* ]]; then\n        COMPREPLY=( $(compgen -W \"$opts\" -- \"$cur\") )\n        return 0\n    fi\n}"))
        } else if eq_lowered(shell, "zsh") {
            Ok(String::from_str("#compdef paperless-ngx-ocr2\nlocal -a opts\nopts=(\n    '(-f --file)'{-f,--file}'[Path to the PDF or image file to process]:file:_files'\n    '(-a --api-key)'{-a,--api-key}'[API key for the OCR service]:key:'\n    '--api-base-url[API base URL for the OCR service]:url:'\n    '--config[Path to custom configuration file]:file:_files'\n    '--json[Output result in JSON format instead of human-readable text]'\n    '(-v --verbose)'{-v,--verbose}'[Enable verbose logging output]'\n    '--completions[Generate shell completion scripts for the specified shell]:shell:(bash zsh fish powershell)'\n    '(-h --help)'{-h,--help}'[Print help]'\n    '(-V --version)'{-V,--version}'[Print version]'\n)\n_arguments $opts"))
        } else if eq_lowered(shell, "fish") {
            Ok(String::from_str("# Fish completion for paperless-ngx-ocr2\ncomplete -c paperless-ngx-ocr2 -s f -l file -d \"Path to the PDF or image file to process\" -r\ncomplete -c paperless-ngx-ocr2 -s a -l api-key -d \"API key for the OCR service\" -r\ncomplete -c paperless-ngx-ocr2 -l api-base-url -d \"API base URL for the OCR service\" -r\ncomplete -c paperless-ngx-ocr2 -l config -d \"Path to custom configuration file\" -r -F\ncomplete -c paperless-ngx-ocr2 -l json -d \"Output result in JSON format instead of human-readable text\"\ncomplete -c paperless-ngx-ocr2 -s v -l verbose -d \"Enable verbose logging output\"\ncomplete -c paperless-ngx-ocr2 -l completions -d \"Generate shell completion scripts for the specified shell\" -x -a \"bash zsh fish powershell\"\ncomplete -c paperless-ngx-ocr2 -s h -l help -d \"Print help\"\ncomplete -c paperless-ngx-ocr2 -s V -l version -d \"Print version\""))
        } else if eq_lowered(shell, "powershell") || eq_lowered(shell, "ps1") {
            Ok(String::from_str("# PowerShell completion for paperless-ngx-ocr2\nRegister-ArgumentCompleter -CommandName paperless-ngx-ocr2 -ScriptBlock {\n    param($commandName, $parameterName, $wordToComplete, $commandAst, $fakeBoundParameters)\n\n    $completions = @('-f', '--file', '-a', '--api-key', '--api-base-url', '--config', '--json', '-v', '--verbose', '--completions', '-h', '--help', '-V', '--version') | Where-Object { $_ -like \"$wordToComplete*\" }\n\n    return $completions\n}"))
        } else {
            Err(
                Error::Config(
                    String::from_str(
                        "Unsupported shell. Supported shells: bash, zsh, fish, powershell",
                    ),
                ),
            )
        }
    }
}

/// The shells a completion script exists for.
pub open spec fn shell_supported(l: Seq<char>) -> bool {
    l == "bash"@ || l == "zsh"@ || l == "fish"@ || l == "powershell"@ || l == "ps1"@
}

/// The completion script for each supported shell name.
pub open spec fn spec_completion_script(l: Seq<char>) -> Seq<char> {
    if l == "bash"@ {
        spec_bash_completion()
    } else if l == "zsh"@ {
        spec_zsh_completion()
    } else if l == "fish"@ {
        spec_fish_completion()
    } else {
        spec_powershell_completion()
    }
}

/// The bash completion script.
pub open spec fn spec_bash_completion() -> Seq<char> {
    "# Bash completion for paperless-ngx-ocr2\ncomplete -F _paperless_ngx_ocr2_completion paperless-ngx-ocr2\n\n_paperless_ngx_ocr2_completion() {\n    local cur prev opts\n    COMPREPLY=()\n    cur=\"${COMP_WORDS[COMP_CWORD]}\"\n    prev=\"${COMP_WORDS[COMP_CWORD-1]}\"\n\n    opts=\"-f --file -a --api-key --api-base-url --config --json -v --verbose -h --help -V --version --completions\"\n\n    case \"${prev}\" in\n        -f|--file)\n            COMPREPLY=( $(compgen -f -- \"$cur\") )\n            return 0\n            ;;\n        -a|--api-key)\n            return 0\n            ;;\n        --api-base-url)\n            return 0\n            ;;\n        --config)\n            COMPREPLY=( $(compgen -f -- \"$cur\") )\n            return 0\n            ;;\n        --completions)\n            COMPREPLY=( $(compgen -W \"bash zsh fish powershell\" -- \"$cur\") )\n            return 0\n            ;;\n    esac\n\n    if [[ $cur == -* ]]; then\n        COMPREPLY=( $(compgen -W \"$opts\" -- \"$cur\") )\n        return 0\n    fi\n}"@
}

/// The zsh completion script.
pub open spec fn spec_zsh_completion() -> Seq<char> {
    "#compdef paperless-ngx-ocr2\nlocal -a opts\nopts=(\n    '(-f --file)'{-f,--file}'[Path to the PDF or image file to process]:file:_files'\n    '(-a --api-key)'{-a,--api-key}'[API key for the OCR service]:key:'\n    '--api-base-url[API base URL for the OCR service]:url:'\n    '--config[Path to custom configuration file]:file:_files'\n    '--json[Output result in JSON format instead of human-readable text]'\n    '(-v --verbose)'{-v,--verbose}'[Enable verbose logging output]'\n    '--completions[Generate shell completion scripts for the specified shell]:shell:(bash zsh fish powershell)'\n    '(-h --help)'{-h,--help}'[Print help]'\n    '(-V --version)'{-V,--version}'[Print version]'\n)\n_arguments $opts"@
}

/// The fish completion script.
pub open spec fn spec_fish_completion() -> Seq<char> {
    "# Fish completion for paperless-ngx-ocr2\ncomplete -c paperless-ngx-ocr2 -s f -l file -d \"Path to the PDF or image file to process\" -r\ncomplete -c paperless-ngx-ocr2 -s a -l api-key -d \"API key for the OCR service\" -r\ncomplete -c paperless-ngx-ocr2 -l api-base-url -d \"API base URL for the OCR service\" -r\ncomplete -c paperless-ngx-ocr2 -l config -d \"Path to custom configuration file\" -r -F\ncomplete -c paperless-ngx-ocr2 -l json -d \"Output result in JSON format instead of human-readable text\"\ncomplete -c paperless-ngx-ocr2 -s v -l verbose -d \"Enable verbose logging output\"\ncomplete -c paperless-ngx-ocr2 -l completions -d \"Generate shell completion scripts for the specified shell\" -x -a \"bash zsh fish powershell\"\ncomplete -c paperless-ngx-ocr2 -s h -l help -d \"Print help\"\ncomplete -c paperless-ngx-ocr2 -s V -l version -d \"Print version\""@
}

/// The powershell completion script.
pub open spec fn spec_powershell_completion() -> Seq<char> {
    "# PowerShell completion for paperless-ngx-ocr2\nRegister-ArgumentCompleter -CommandName paperless-ngx-ocr2 -ScriptBlock {\n    param($commandName, $parameterName, $wordToComplete, $commandAst, $fakeBoundParameters)\n\n    $completions = @('-f', '--file', '-a', '--api-key', '--api-base-url', '--config', '--json', '-v', '--verbose', '--completions', '-h', '--help', '-V', '--version') | Where-Object { $_ -like \"$wordToComplete*\" }\n\n    return $completions\n}"@
}

/// Show version information.
pub fn show_version() -> (r: String)
    ensures
        r@ == "paperless-ngx-ocr2 0.1.0"@,
{
    String::from_str("paperless-ngx-ocr2 0.1.0")
}

/// Show help information with examples.
pub fn show_help_with_examples() -> (r: String)
    ensures
        r@ == spec_help_text(),
{
    String::from_str("paperless-ngx-ocr2 0.1.0\n\nUSAGE:\n    paperless-ngx-ocr2 [OPTIONS] --file <FILE>\n\nEXAMPLES:\n    # Extract text from a PDF file\n    paperless-ngx-ocr2 --file document.pdf --api-key your-api-key\n\n    # Extract text and output as JSON\n    paperless-ngx-ocr2 --file image.png --api-key your-api-key --json\n\n    # Use environment variables for configuration\n    export PAPERLESS_OCR_API_KEY=your-api-key\n    paperless-ngx-ocr2 --file document.pdf\n\n    # Enable verbose logging\n    paperless-ngx-ocr2 --file document.pdf --api-key your-api-key --verbose\n\n    # Use custom API endpoint\n    paperless-ngx-ocr2 --file document.pdf --api-key your-api-key --api-base-url https://custom.api.url\n\nSUPPORTED FILE FORMATS:\n    - PDF files (.pdf) up to 100MB\n    - PNG images (.png) up to 100MB\n    - JPEG images (.jpg, .jpeg) up to 100MB\n\nCONFIGURATION:\n    Configuration can be provided via:\n    1. Command-line arguments (highest priority)\n    2. Environment variables\n    3. TOML configuration file at ~/.config/paperless-ngx-ocr2/config.toml\n\nENVIRONMENT VARIABLES:\n    PAPERLESS_OCR_API_KEY          API key for the OCR service\n    PAPERLESS_OCR_API_BASE_URL     API base URL (default: https://api.mistral.ai)\n    PAPERLESS_OCR_TIMEOUT          Request timeout in seconds (default: 30)\n    PAPERLESS_OCR_MAX_FILE_SIZE    Maximum file size in MB (default: 100)\n    PAPERLESS_OCR_LOG_LEVEL        Log level (default: info)\n\nEXIT CODES:\n    0    Success\n    2    Validation error (invalid file, configuration)\n    3    I/O error (file read/write issues)\n    4    Configuration error (missing API key, invalid config)\n    5    Internal error (API errors, network issues)\n")
}

/// The help text with usage examples.
pub open spec fn spec_help_text() -> Seq<char> {
    "paperless-ngx-ocr2 0.1.0\n\nUSAGE:\n    paperless-ngx-ocr2 [OPTIONS] --file <FILE>\n\nEXAMPLES:\n    # Extract text from a PDF file\n    paperless-ngx-ocr2 --file document.pdf --api-key your-api-key\n\n    # Extract text and output as JSON\n    paperless-ngx-ocr2 --file image.png --api-key your-api-key --json\n\n    # Use environment variables for configuration\n    export PAPERLESS_OCR_API_KEY=your-api-key\n    paperless-ngx-ocr2 --file document.pdf\n\n    # Enable verbose logging\n    paperless-ngx-ocr2 --file document.pdf --api-key your-api-key --verbose\n\n    # Use custom API endpoint\n    paperless-ngx-ocr2 --file document.pdf --api-key your-api-key --api-base-url https://custom.api.url\n\nSUPPORTED FILE FORMATS:\n    - PDF files (.pdf) up to 100MB\n    - PNG images (.png) up to 100MB\n    - JPEG images (.jpg, .jpeg) up to 100MB\n\nCONFIGURATION:\n    Configuration can be provided via:\n    1. Command-line arguments (highest priority)\n    2. Environment variables\n    3. TOML configuration file at ~/.config/paperless-ngx-ocr2/config.toml\n\nENVIRONMENT VARIABLES:\n    PAPERLESS_OCR_API_KEY          API key for the OCR service\n    PAPERLESS_OCR_API_BASE_URL     API base URL (default: https://api.mistral.ai)\n    PAPERLESS_OCR_TIMEOUT          Request timeout in seconds (default: 30)\n    PAPERLESS_OCR_MAX_FILE_SIZE    Maximum file size in MB (default: 100)\n    PAPERLESS_OCR_LOG_LEVEL        Log level (default: info)\n\nEXIT CODES:\n    0    Success\n    2    Validation error (invalid file, configuration)\n    3    I/O error (file read/write issues)\n    4    Configuration error (missing API key, invalid config)\n    5    Internal error (API errors, network issues)\n"@
}

// ---------------------------------------------------------------------------
// File-path validation
// ---------------------------------------------------------------------------

/// Where the extension starts inside a file name: one past the last dot,
/// or zero when there is none.
pub open spec fn last_dot_end(name: Seq<char>) -> int
    decreases name.len(),
{
    if name.len() == 0 {
        0
    } else if name[name.len() - 1] == '.' {
        name.len() as int
    } else {
        last_dot_end(name.drop_last())
    }
}

/// The extension of a path: what follows the last dot of its file name,
/// provided that dot is not the name's first character.
pub open spec fn spec_extension(p: Seq<char>) -> Option<Seq<char>> {
    let name = p.subrange(last_sep_end(p), p.len() as int);
    if last_dot_end(name) >= 2 {
        Some(name.skip(last_dot_end(name)))
    } else {
        None
    }
}

/// The extensions the tool accepts, lower-cased.
pub open spec fn ext_supported(l: Seq<char>) -> bool {
    l == "pdf"@ || l == "png"@ || l == "jpg"@ || l == "jpeg"@
}

/// Scanning one more character of the name moves the extension start to
/// just past it exactly when it is a dot.
proof fn lemma_last_dot_end_step(name: Seq<char>, i: int)
    requires
        0 <= i < name.len(),
    ensures
        last_dot_end(name.subrange(0, i + 1)) == if name[i] == '.' {
            i + 1
        } else {
            last_dot_end(name.subrange(0, i))
        },
{
    let q = name.subrange(0, i + 1);
    assert(q[q.len() - 1] == name[i]);
    if name[i] != '.' {
        assert(q.drop_last() =~= name.subrange(0, i));
    }
}

/// Validate an input path by its extension; whether the path names a
/// readable regular file is checked where the file is opened.
#[verifier::rlimit(30)]
pub fn validate_file_path(input_file_path: &str) -> (r: Result<(), Error>)
    ensures
        r is Ok <==> (spec_extension(input_file_path@) matches Some(e) && ext_supported(
            lower_chars(e),
        )),
        r matches Err(e) ==> e is Validation,
{
    let path = input_file_path;
    let len = path.unicode_len();
    let ghost p = path@;
    // The start of the file name: one past the last separator.
    let mut s: usize = 0;
    let mut i: usize = 0;
    while i < len
        invariant
            s <= i <= len,
            len == p.len(),
            p == path@,
            s == last_sep_end(p.subrange(0, i as int)),
        decreases len - i,
    {
        let c = path.get_char(i);
        proof {
            crate::file::lemma_last_sep_end_step(p, i as int);
        }
        if c == '/' {
            s = i + 1;
        }
        i += 1;
    }
    proof {
        assert(p.subrange(0, len as int) =~= p);
    }
    let ghost name = p.subrange(s as int, len as int);
    // The start of the extension inside the name: one past its last dot.
    let mut de: usize = 0;
    let mut k: usize = 0;
    while k < len - s
        invariant
            de <= k <= len - s,
            s <= len,
            len == p.len(),
            p == path@,
            name == p.subrange(s as int, len as int),
            de == last_dot_end(name.subrange(0, k as int)),
        decreases len - s - k,
    {
        let c = path.get_char(s + k);
        proof {
            assert(name[k as int] == p[s + k]);
            lemma_last_dot_end_step(name, k as int);
        }
        if c == '.' {
            de = k + 1;
        }
        k += 1;
    }
    proof {
        assert(name.subrange(0, (len - s) as int) =~= name);
    }
    if de >= 2 {
        let ext = path.substring_char(s + de, len);
        proof {
            assert(ext@ =~= name.skip(de as int));
            reveal_strlit("pdf");
            reveal_strlit("png");
            reveal_strlit("jpg");
            reveal_strlit("jpeg");
            assert(lower_chars("pdf"@) =~= "pdf"@);
            assert(lower_chars("png"@) =~= "png"@);
            assert(lower_chars("jpg"@) =~= "jpg"@);
            assert(lower_chars("jpeg"@) =~= "jpeg"@);
        }
        if eq_lowered(ext, "pdf") || eq_lowered(ext, "png") || eq_lowered(ext, "jpg")
            || eq_lowered(ext, "jpeg") {
            Ok(())
        } else {
            let mut m = String::from_str("Unsupported file format: .");
            m.append(ext);
            m.append(". Supported formats: pdf, png, jpg, jpeg");
            Err(Error::Validation(m))
        }
    } else {
        Err(
            Error::Validation(
                String::from_str("File has no extension. Supported formats: pdf, png, jpg, jpeg"),
            ),
        )
    }
}

} // verus!
