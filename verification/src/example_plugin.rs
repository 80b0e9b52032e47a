//! A minimal sample module for exercising the runtime: a WebAssembly
//! binary with no imports and one export, `hello`, of type `() -> i32`,
//! returning 42.

use vstd::prelude::*;

verus! {

/// The bytes of the sample module: magic header, version, and the type,
/// function, export and code sections for `hello`.
pub open spec fn sample_wasm_bytes() -> Seq<u8> {
    seq![
        0x00u8, 0x61, 0x73, 0x6d, 0x01, 0x00, 0x00, 0x00, 0x01, 0x05, 0x01, 0x60, 0x00, 0x01,
        0x7f, 0x03, 0x02, 0x01, 0x00, 0x07, 0x09, 0x01, 0x05, 0x68, 0x65, 0x6c, 0x6c, 0x6f,
        0x00, 0x00, 0x0a, 0x06, 0x01, 0x04, 0x00, 0x41, 0x2a, 0x0b,
    ]
}

/// A sample WebAssembly plugin binary: it exports one function, `hello`,
/// which returns 42. The first four bytes are the WebAssembly magic
/// number.
pub fn create_sample_wasm_plugin() -> (r: Vec<u8>)
    ensures
        r@ == sample_wasm_bytes(),
        r@.len() == 38,
        r@[0] == 0x00u8,
        r@[1] == 0x61u8,
        r@[2] == 0x73u8,
        r@[3] == 0x6du8,
{
    let r: Vec<u8> = vec![
        0x00u8, 0x61, 0x73, 0x6d, 0x01, 0x00, 0x00, 0x00, 0x01, 0x05, 0x01, 0x60, 0x00, 0x01,
        0x7f, 0x03, 0x02, 0x01, 0x00, 0x07, 0x09, 0x01, 0x05, 0x68, 0x65, 0x6c, 0x6c, 0x6f,
        0x00, 0x00, 0x0a, 0x06, 0x01, 0x04, 0x00, 0x41, 0x2a, 0x0b,
    ];
    proof {
        assert(r@ =~= sample_wasm_bytes());
    }
    r
}

/// ASCII whitespace, the separator for word counting.
pub open spec fn is_space(c: char) -> bool {
    c == ' ' || c == '\t' || c == '\n' || c == '\r'
}

/// The number of words in `s` from position `i` on, given whether a word
/// is open at `i`: a word begins at each non-space character that follows
/// a space (or the start).
pub open spec fn word_count_from(s: Seq<char>, i: int, in_word: bool) -> nat
    decreases s.len() - i,
{
    if i < 0 || i >= s.len() {
        0
    } else if !is_space(s[i]) && !in_word {
        1 + word_count_from(s, i + 1, true)
    } else {
        word_count_from(s, i + 1, !is_space(s[i]))
    }
}

/// The number of whitespace-separated words in `s`.
pub open spec fn word_count_of(s: Seq<char>) -> nat {
    word_count_from(s, 0, false)
}

/// The number of newlines in `s` strictly before the last character.
pub open spec fn inner_newlines(s: Seq<char>, i: int) -> nat
    decreases s.len() - i,
{
    if i < 0 || i + 1 >= s.len() {
        0
    } else if s[i] == '\n' {
        1 + inner_newlines(s, i + 1)
    } else {
        inner_newlines(s, i + 1)
    }
}

/// The number of lines in `s`: none when empty, else one more than the
/// newlines before the last character (a trailing newline opens no line).
pub open spec fn line_count_of(s: Seq<char>) -> nat {
    if s.len() == 0 {
        0
    } else {
        1 + inner_newlines(s, 0)
    }
}

/// Statistics of a piece of text.
#[derive(Debug, Clone, Copy, PartialEq, Eq, Structural)]
pub struct TextStats {
    pub word_count: usize,
    pub character_count: usize,
    pub lines: usize,
}

/// What an example-plugin function returns: a message or text statistics.
#[derive(Debug, Clone)]
pub enum ExampleOutput {
    Message(String),
    Stats(TextStats),
}

/// A native demonstration plugin with three functions — `hello`, `echo`
/// and `analyze_text` — and the running counters a health check reads.
#[derive(Debug, Clone)]
pub struct ExampleWasmPlugin {
    pub metadata: crate::WasmPluginMetadata,
    pub initialized: bool,
    pub total_calls: u64,
    pub successful_calls: u64,
    pub failed_calls: u64,
}

impl ExampleWasmPlugin {
    /// A fresh example plugin: not yet initialized, counters at zero, with
    /// its declared capabilities.
    pub fn new() -> (r: Self)
        ensures
            r.metadata.id@ == "example_wasm_plugin"@,
            r.metadata.version@ == "1.0.0"@,
            crate::strutil::views_of(r.metadata.capabilities@) == seq![
                "text_processing"@,
                "data_analysis"@,
                "utility_functions"@,
            ],
            !r.initialized,
            r.total_calls == 0,
            r.successful_calls == 0,
            r.failed_calls == 0,
    {
        let metadata = crate::WasmPluginMetadata {
            id: crate::strutil::copy_str("example_wasm_plugin"),
            name: crate::strutil::copy_str("Example WebAssembly Plugin"),
            version: crate::strutil::copy_str("1.0.0"),
            description: crate::strutil::copy_str(
                "A demonstration WebAssembly plugin showing best practices",
            ),
            author: crate::strutil::copy_str("Personal AI Assistant Team"),
            license: crate::strutil::copy_str("MIT"),
            capabilities: vec![
                crate::strutil::copy_str("text_processing"),
                crate::strutil::copy_str("data_analysis"),
                crate::strutil::copy_str("utility_functions"),
            ],
            dependencies: Vec::new(),
            api_version: crate::strutil::copy_str("1.0"),
            checksum: String::new(),
        };
        proof {
            assert(crate::strutil::views_of(metadata.capabilities@) =~= seq![
                "text_processing"@,
                "data_analysis"@,
                "utility_functions"@,
            ]);
        }
        ExampleWasmPlugin {
            metadata,
            initialized: false,
            total_calls: 0,
            successful_calls: 0,
            failed_calls: 0,
        }
    }

    /// Marks the plugin initialized.
    pub fn initialize(&mut self)
        ensures
            *final(self) == (ExampleWasmPlugin { initialized: true, ..*old(self) }),
    {
        self.initialized = true;
    }

    /// Whether the plugin declares the capability named `capability`.
    pub fn can_handle(&self, capability: &str) -> (r: bool)
        ensures
            r == crate::strutil::contains_string(
                crate::strutil::views_of(self.metadata.capabilities@),
                capability@,
            ),
    {
        crate::strutil::string_vec_contains(&self.metadata.capabilities, capability)
    }

    /// The greeting for `name`.
    pub fn hello(name: &str) -> (r: String)
        ensures
            r@ == "Hello, "@ + name@ + "! This is the Example WebAssembly Plugin."@,
    {
        let mut out = crate::strutil::copy_str("Hello, ");
        crate::strutil::append_str(&mut out, name);
        crate::strutil::append_str(&mut out, "! This is the Example WebAssembly Plugin.");
        out
    }

    /// The input, unchanged.
    pub fn echo(message: &str) -> (r: String)
        ensures
            r@ == message@,
    {
        crate::strutil::copy_str(message)
    }

    /// Counts words (separated by ASCII whitespace), characters and lines
    /// (a trailing newline opens no line).
    pub fn analyze_text(text: &str) -> (r: TextStats)
        ensures
            r.word_count == word_count_of(text@),
            r.character_count == text@.len(),
            r.lines == line_count_of(text@),
    {
        let chars = crate::strutil::chars_of(text);
        let n = chars.len();
        let mut words: usize = 0;
        let mut in_word = false;
        let mut i: usize = 0;
        while i < n
            invariant
                chars@ == text@,
                n == chars@.len(),
                i <= n,
                words <= i,
                words + word_count_from(text@, i as int, in_word) == word_count_of(text@),
            decreases n - i,
        {
            let c = chars[i];
            let space = c == ' ' || c == '\t' || c == '\n' || c == '\r';
            if !space && !in_word {
                words = words + 1;
                in_word = true;
            } else {
                in_word = !space;
            }
            i = i + 1;
        }
        let mut lines: usize = 0;
        if n > 0 {
            lines = 1;
            let mut j: usize = 0;
            while j < n
                invariant
                    chars@ == text@,
                    n == chars@.len(),
                    n > 0,
                    j <= n,
                    lines >= 1,
                    lines <= j + 1,
                    lines == 1 + inner_newlines(text@, 0) - inner_newlines(text@, j as int),
                decreases n - j,
            {
                if j + 1 < n && chars[j] == '\n' {
                    lines = lines + 1;
                }
                j = j + 1;
            }
            proof {
                assert(inner_newlines(text@, n as int) == 0);
            }
        }
        TextStats { word_count: words, character_count: n, lines }
    }

    /// Dispatches one call: `hello`, `echo` or `analyze_text`, with the
    /// call counters advanced; an unknown function name fails the call. A
    /// plugin that is not initialized refuses every call.
    pub fn execute(&mut self, function: &str, input: &str) -> (r: Result<
        ExampleOutput,
        crate::common::AssistantError,
    >)
        ensures
            final(self).metadata == old(self).metadata,
            final(self).initialized == old(self).initialized,
            !old(self).initialized ==> (r is Err && *final(self) == *old(self)),
            old(self).initialized ==> {
                &&& (r is Ok <==> (function@ == "hello"@ || function@ == "echo"@ || function@
                    == "analyze_text"@))
                &&& final(self).total_calls == (if old(self).total_calls < u64::MAX {
                    old(self).total_calls + 1
                } else {
                    u64::MAX as int
                })
                &&& (r is Ok ==> final(self).successful_calls == (if old(
                    self,
                ).successful_calls < u64::MAX {
                    old(self).successful_calls + 1
                } else {
                    u64::MAX as int
                }) && final(self).failed_executions_unchanged(*old(self)))
                &&& (r is Err ==> final(self).failed_calls == (if old(self).failed_calls
                    < u64::MAX {
                    old(self).failed_calls + 1
                } else {
                    u64::MAX as int
                }))
                &&& (r is Err ==> final(self).successful_calls == old(self).successful_calls)
            },
            r matches Ok(out) ==> {
                &&& (function@ == "hello"@ ==> (out matches ExampleOutput::Message(m) && m@
                    == "Hello, "@ + input@ + "! This is the Example WebAssembly Plugin."@))
                &&& (function@ == "echo"@ ==> (out matches ExampleOutput::Message(m) && m@
                    == input@))
                &&& (function@ == "analyze_text"@ ==> (out matches ExampleOutput::Stats(st)
                    && st.word_count == word_count_of(input@) && st.character_count
                    == input@.len() && st.lines == line_count_of(input@)))
            },
    {
        proof {
            reveal_strlit("hello");
            reveal_strlit("echo");
            reveal_strlit("analyze_text");
            assert("hello"@.len() == 5);
            assert("echo"@.len() == 4);
            assert("analyze_text"@.len() == 12);
        }
        if !self.initialized {
            return Err(
                crate::common::AssistantError::Plugin(
                    crate::strutil::copy_str("Plugin not initialized"),
                ),
            );
        }
        self.total_calls = crate::security::sat_add_u64(self.total_calls, 1);
        if crate::strutil::str_eq(function, "hello") {
            self.successful_calls = crate::security::sat_add_u64(self.successful_calls, 1);
            Ok(ExampleOutput::Message(Self::hello(input)))
        } else if crate::strutil::str_eq(function, "echo") {
            self.successful_calls = crate::security::sat_add_u64(self.successful_calls, 1);
            Ok(ExampleOutput::Message(Self::echo(input)))
        } else if crate::strutil::str_eq(function, "analyze_text") {
            self.successful_calls = crate::security::sat_add_u64(self.successful_calls, 1);
            Ok(ExampleOutput::Stats(Self::analyze_text(input)))
        } else {
            self.failed_calls = crate::security::sat_add_u64(self.failed_calls, 1);
            Err(crate::common::AssistantError::Plugin(crate::strutil::copy_str("Unknown function")))
        }
    }

    /// Whether the failed-call counter is unchanged against `pre`.
    pub open spec fn failed_executions_unchanged(self, pre: Self) -> bool {
        self.failed_calls == pre.failed_calls
    }

    /// The derived health: unhealthy before initialization, degraded once
    /// failed calls outnumber successful ones, else healthy.
    pub fn health_check(&self, now: u64) -> (r: crate::PluginHealth)
        ensures
            r.status == (if !self.initialized {
                crate::HealthStatus::Unhealthy
            } else if self.failed_calls > self.successful_calls {
                crate::HealthStatus::Degraded
            } else {
                crate::HealthStatus::Healthy
            }),
            r.last_check == now,
            r.execution_count == self.total_calls,
            r.error_count == self.failed_calls,
    {
        let status = if !self.initialized {
            crate::HealthStatus::Unhealthy
        } else if self.failed_calls > self.successful_calls {
            crate::HealthStatus::Degraded
        } else {
            crate::HealthStatus::Healthy
        };
        crate::PluginHealth {
            status,
            message: None,
            last_check: now,
            execution_count: self.total_calls,
            error_count: self.failed_calls,
            average_execution_time: 0,
        }
    }

    /// Clears the plugin's state.
    pub fn cleanup(&mut self)
        ensures
            !final(self).initialized,
            final(self).metadata == old(self).metadata,
    {
        self.initialized = false;
    }
}

} // verus!
