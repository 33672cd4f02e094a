//! The session's configuration, and the checks made on it once it is read:
//! the terminal size taken from the shell's environment, and the settings of
//! the language model.

use vstd::prelude::*;

use crate::text::{is_blank, is_white_space_char, to_chars};

verus! {

/// The shell to run: program, arguments, and environment. The environment is
/// a list of (name, value) pairs in the order of their names, each name once
/// (see [`env_names_distinct`], which the functions that read it require).
#[derive(Debug, Clone)]
pub struct ShellConfig {
    pub program: String,
    pub args: Vec<String>,
    pub env: Vec<(String, String)>,
}

/// Everything a session needs to run.
#[derive(Debug, Clone)]
pub struct SessionConfig {
    pub wait_ms: u64,
    pub yolo: bool,
    pub shell: ShellConfig,
    pub llm: LlmConfig,
}

/// The settings of the language model.
#[derive(Debug, Clone)]
pub struct LlmConfig {
    pub api_key: String,
    pub skin: SkinMode,
    pub initial_prompt: String,
}

/// The colours used to show text to the user.
#[derive(Debug, Clone, Copy, PartialEq, Eq, Default, Structural)]
pub enum SkinMode {
    Light,
    Dark,
    #[default]
    Default,
}

/// Why a configuration was refused.
#[derive(Debug, Clone, PartialEq, Eq)]
pub enum ConfigError {
    /// The shell's environment has no variable of this name.
    MissingVariable(String),
    /// The variable (name, value) does not hold a number.
    NotANumber(String, String),
    /// `COLUMNS` is zero.
    ZeroColumns,
    /// `LINES` is zero.
    ZeroRows,
    /// The API key is empty or blank.
    EmptyApiKey,
    /// The initial prompt is empty or blank.
    EmptyInitialPrompt,
}

/// The sentence that describes a configuration error.
pub open spec fn config_error_text(e: ConfigError) -> Seq<char> {
    match e {
        ConfigError::MissingVariable(key) => "missing shell.env."@ + key@,
        ConfigError::NotANumber(key, value) => "shell.env."@ + key@
            + " must be a positive integer (got \""@ + value@ + "\")"@,
        ConfigError::ZeroColumns => "shell.env.COLUMNS must be greater than zero"@,
        ConfigError::ZeroRows => "shell.env.LINES must be greater than zero"@,
        ConfigError::EmptyApiKey => "llm.api_key must not be empty (or set OPENAI_API_KEY)"@,
        ConfigError::EmptyInitialPrompt => "llm.initial_prompt must not be empty"@,
    }
}

impl ConfigError {
    /// A sentence that says what is wrong.
    pub fn message(&self) -> (r: String)
        ensures
            r@ == config_error_text(*self),
    {
        match self {
            ConfigError::MissingVariable(key) => {
                let mut m = String::from_str("missing shell.env.");
                m.append(key.as_str());
                m
            },
            ConfigError::NotANumber(key, value) => {
                let mut m = String::from_str("shell.env.");
                m.append(key.as_str());
                m.append(" must be a positive integer (got \"");
                m.append(value.as_str());
                m.append("\")");
                m
            },
            ConfigError::ZeroColumns => String::from_str(
                "shell.env.COLUMNS must be greater than zero",
            ),
            ConfigError::ZeroRows => String::from_str("shell.env.LINES must be greater than zero"),
            ConfigError::EmptyApiKey => String::from_str(
                "llm.api_key must not be empty (or set OPENAI_API_KEY)",
            ),
            ConfigError::EmptyInitialPrompt => String::from_str(
                "llm.initial_prompt must not be empty",
            ),
        }
    }
}

/// The value of the first variable named `key`.
pub open spec fn env_lookup(env: Seq<(String, String)>, key: Seq<char>) -> Option<Seq<char>>
    decreases env.len(),
{
    if env.len() == 0 {
        None
    } else if env[0].0@ == key {
        Some(env[0].1@)
    } else {
        env_lookup(env.drop_first(), key)
    }
}

/// Each name stands in the environment once, as in a map from names to values.
pub open spec fn env_names_distinct(env: Seq<(String, String)>) -> bool {
    forall|i: int, j: int| 0 <= i < j < env.len() ==> env[i].0@ != env[j].0@
}

/// In an environment whose names are distinct, looking a name up gives the
/// value stored with it.
pub proof fn lemma_env_lookup_finds_entry(env: Seq<(String, String)>, i: int)
    requires
        env_names_distinct(env),
        0 <= i < env.len(),
    ensures
        env_lookup(env, env[i].0@) == Some(env[i].1@),
    decreases i,
{
    if i > 0 {
        let rest = env.drop_first();
        assert(env[0].0@ != env[i].0@);
        assert(rest[i - 1] == env[i]);
        assert forall|a: int, b: int| 0 <= a < b < rest.len() implies rest[a].0@ != rest[b].0@ by {
            assert(rest[a] == env[a + 1] && rest[b] == env[b + 1]);
        }
        lemma_env_lookup_finds_entry(rest, i - 1);
    }
}

/// Whether each name stands in the environment once.
pub fn env_names_unique(env: &Vec<(String, String)>) -> (r: bool)
    ensures
        r == env_names_distinct(env@),
{
    let n = env.len();
    for i in 0..n
        invariant
            n == env.len(),
            forall|a: int, b: int| 0 <= a < b < env@.len() && a < i ==> env@[a].0@ != env@[b].0@,
    {
        for j in i + 1..n
            invariant
                n == env.len(),
                i < n,
                forall|a: int, b: int| 0 <= a < b < env@.len() && a < i ==> env@[a].0@ != env@[b].0@,
                forall|b: int| i < b < j ==> env@[i as int].0@ != env@[b].0@,
        {
            if env[i].0 == env[j].0 {
                return false;
            }
        }
    }
    true
}

/// An ASCII decimal digit.
pub open spec fn is_decimal_digit(c: char) -> bool {
    '0' <= c <= '9'
}

/// The number written by a sequence of decimal digits.
pub open spec fn digits_value(s: Seq<char>) -> nat
    decreases s.len(),
{
    if s.len() == 0 {
        0
    } else {
        digits_value(s.drop_last()) * 10 + ((s.last() as u32) - ('0' as u32)) as nat
    }
}

/// The number that an unsigned integer numeral writes: an optional `+`, then
/// one or more decimal digits; nothing for any other text.
pub open spec fn numeral_value(s: Seq<char>) -> Option<nat> {
    let digits = numeral_digits(s);
    if digits.len() > 0 && all_decimal(digits) {
        Some(digits_value(digits))
    } else {
        None
    }
}

/// A numeral without its leading `+`, if it has one.
pub open spec fn numeral_digits(s: Seq<char>) -> Seq<char> {
    if s.len() > 0 && s[0] == '+' {
        s.drop_first()
    } else {
        s
    }
}

/// Every character is a decimal digit.
pub open spec fn all_decimal(s: Seq<char>) -> bool {
    forall|i: int| 0 <= i < s.len() ==> is_decimal_digit(#[trigger] s[i])
}

/// The `usize` that a text holds: a numeral whose number fits.
pub open spec fn usize_value(s: Seq<char>) -> Option<usize> {
    match numeral_value(s) {
        Some(v) => if v <= usize::MAX {
            Some(v as usize)
        } else {
            None
        },
        None => None,
    }
}

/// More digits never write a smaller number.
proof fn lemma_digits_value_grows(s: Seq<char>, j: int, k: int)
    requires
        0 <= j <= k <= s.len(),
    ensures
        digits_value(s.subrange(0, j)) <= digits_value(s.subrange(0, k)),
    decreases k - j,
{
    if j < k {
        lemma_digits_value_grows(s, j, k - 1);
        assert(s.subrange(0, k).drop_last() =~= s.subrange(0, k - 1));
    }
}

/// Reads an unsigned integer numeral (an optional `+`, then decimal digits)
/// whose number fits in a `usize`.
pub fn parse_usize(s: &str) -> (r: Option<usize>)
    ensures
        r == usize_value(s@),
{
    let chars = to_chars(s);
    let n = chars.len();
    let start: usize = if n > 0 && chars[0] == '+' {
        1
    } else {
        0
    };
    let ghost digits = numeral_digits(s@);
    assert(digits =~= chars@.subrange(start as int, n as int));
    if start >= n {
        return None;
    }
    let mut v: usize = 0;
    let mut i: usize = start;
    while i < n
        invariant
            chars@ == s@,
            n == chars.len(),
            start <= i <= n,
            digits == chars@.subrange(start as int, n as int),
            digits == numeral_digits(s@),
            forall|j: int| 0 <= j < i - start ==> is_decimal_digit(#[trigger] digits[j]),
            v as nat == digits_value(digits.subrange(0, i - start)),
        decreases n - i,
    {
        let c = chars[i];
        assert(c == digits[i - start]);
        if !('0' <= c && c <= '9') {
            assert(!is_decimal_digit(digits[i - start]));
            assert(!all_decimal(digits));

            return None;
        }
        let d = ((c as u32) - 48) as usize;
        assert(digits.subrange(0, i + 1 - start).drop_last() =~= digits.subrange(0, i - start));
        let ghost grown = digits_value(digits.subrange(0, i + 1 - start));
        assert(grown == v * 10 + d);
        let next = match v.checked_mul(10) {
            Some(t) => t.checked_add(d),
            None => None,
        };
        assert(next is None ==> grown > usize::MAX);
        match next {
            Some(w) => {
                v = w;
            },
            None => {
                proof {
                    if all_decimal(digits) {
                        assert forall|j: int| 0 <= j < i + 1 - start implies is_decimal_digit(
                            #[trigger] digits[j],
                        ) by {
                            if j == i - start {
                                assert(digits[j] == c);
                            }
                        }
                        lemma_digits_value_grows(digits, i + 1 - start, digits.len() as int);
                        assert(digits.subrange(0, digits.len() as int) =~= digits);
                        assert(numeral_value(s@)->0 == digits_value(digits));
                        assert(numeral_value(s@)->0 > usize::MAX);
                    }
                }
                return None;
            },
        }
        i = i + 1;
    }
    assert(digits.subrange(0, n - start) =~= digits);
    Some(v)
}

/// Whether every character of `s` is whitespace.
pub fn is_blank_str(s: &str) -> (r: bool)
    ensures
        r == is_blank(s@),
{
    let chars = to_chars(s);
    for i in 0..chars.len()
        invariant
            chars@ == s@,
            forall|j: int| 0 <= j < i ==> crate::text::is_white_space(#[trigger] chars@[j]),
    {
        if !is_white_space_char(chars[i]) {
            return false;
        }
    }
    true
}

/// Reads the variable `key` of the shell's environment as a `usize`.
pub fn parse_usize_env_var(env: &Vec<(String, String)>, key: &str) -> (r: Result<usize, ConfigError>)
    requires
        env_names_distinct(env@),
    ensures
        variable_reading(env@, key@, r),
{
    let key_text = String::from_str(key);
    let mut i: usize = 0;
    assert(env@.subrange(0, env@.len() as int) =~= env@);
    while i < env.len()
        invariant
            key_text@ == key@,
            env_lookup(env@.subrange(i as int, env@.len() as int), key@) == env_lookup(env@, key@),
            i <= env.len(),
        decreases env.len() - i,
    {
        let ghost rest = env@.subrange(i as int, env@.len() as int);
        assert(rest.drop_first() =~= env@.subrange(i + 1, env@.len() as int));
        if env[i].0 == key_text {
            let value = &env[i].1;
            return match parse_usize(value.as_str()) {
                Some(v) => Ok(v),
                None => Err(ConfigError::NotANumber(key_text, String::from_str(value.as_str()))),
            };
        }
        i = i + 1;
    }
    Err(ConfigError::MissingVariable(key_text))
}

/// What reading the variable `key` may give: its number when it holds one; that
/// it is missing; or its name and value when the value is not a number.
pub open spec fn variable_reading(env: Seq<(String, String)>, key: Seq<char>, r: Result<usize, ConfigError>) -> bool {
    match env_lookup(env, key) {
        None => match r {
            Err(ConfigError::MissingVariable(k)) => k@ == key,
            _ => false,
        },
        Some(value) => match usize_value(value) {
            Some(v) => r == Ok::<usize, ConfigError>(v),
            None => match r {
                Err(ConfigError::NotANumber(k, val)) => k@ == key && val@ == value,
                _ => false,
            },
        },
    }
}

/// The reading of a size variable that holds a number, if it does.
pub open spec fn size_setting(env: Seq<(String, String)>, key: Seq<char>) -> Option<usize> {
    match env_lookup(env, key) {
        Some(value) => usize_value(value),
        None => None,
    }
}

/// The error that the checks of the terminal size give, in their order:
/// reading `COLUMNS`, reading `LINES`, then each must be above zero.
pub open spec fn size_error(env: Seq<(String, String)>, e: ConfigError) -> bool {
    if size_setting(env, "COLUMNS"@) is None {
        variable_reading(env, "COLUMNS"@, Err(e))
    } else if size_setting(env, "LINES"@) is None {
        variable_reading(env, "LINES"@, Err(e))
    } else if size_setting(env, "COLUMNS"@)->0 == 0 {
        e == ConfigError::ZeroColumns
    } else {
        e == ConfigError::ZeroRows
    }
}

/// The configured terminal size is usable: both variables hold numbers above zero.
pub open spec fn valid_size(env: Seq<(String, String)>) -> bool {
    &&& size_setting(env, "COLUMNS"@) matches Some(c) && c > 0
    &&& size_setting(env, "LINES"@) matches Some(r) && r > 0
}

/// The language-model settings are usable: neither the key nor the prompt is blank.
pub open spec fn valid_llm(llm: LlmConfig) -> bool {
    !is_blank(llm.api_key@) && !is_blank(llm.initial_prompt@)
}

/// The configuration once an API key from the environment has been taken in:
/// a key from the environment that is not blank replaces a blank configured one.
pub open spec fn with_resolved_key(config: SessionConfig, env_api_key: Option<String>) -> SessionConfig {
    if !is_blank(config.llm.api_key@) {
        config
    } else {
        match env_api_key {
            Some(k) => if !is_blank(k@) {
                SessionConfig { llm: LlmConfig { api_key: k, ..config.llm }, ..config }
            } else {
                config
            },
            None => config,
        }
    }
}

impl SessionConfig {
    /// The terminal's (columns, rows), from the shell's `COLUMNS` and `LINES`;
    /// each must be a number above zero.
    pub fn terminal_size(&self) -> (r: Result<(usize, usize), ConfigError>)
        requires
            env_names_distinct(self.shell.env@),
        ensures
            r is Ok <==> valid_size(self.shell.env@),
            r matches Ok((c, w)) ==> size_setting(self.shell.env@, "COLUMNS"@) == Some(c)
                && size_setting(self.shell.env@, "LINES"@) == Some(w),
            r matches Err(e) ==> size_error(self.shell.env@, e),
    {
        let cols = parse_usize_env_var(&self.shell.env, "COLUMNS");
        let cols = match cols {
            Ok(c) => c,
            Err(e) => {
                return Err(e);
            },
        };
        let rows = parse_usize_env_var(&self.shell.env, "LINES");
        let rows = match rows {
            Ok(r) => r,
            Err(e) => {
                return Err(e);
            },
        };
        if cols == 0 {
            return Err(ConfigError::ZeroColumns);
        }
        if rows == 0 {
            return Err(ConfigError::ZeroRows);
        }
        Ok((cols, rows))
    }

    /// Checks that neither the API key nor the initial prompt is blank, the key first.
    pub fn validate_llm(&self) -> (r: Result<(), ConfigError>)
        ensures
            r is Ok <==> valid_llm(self.llm),
            r == Err::<(), ConfigError>(ConfigError::EmptyApiKey) <==> is_blank(self.llm.api_key@),
            r == Err::<(), ConfigError>(ConfigError::EmptyInitialPrompt) <==> !is_blank(
                self.llm.api_key@,
            ) && is_blank(self.llm.initial_prompt@),
    {
        if is_blank_str(self.llm.api_key.as_str()) {
            return Err(ConfigError::EmptyApiKey);
        }
        if is_blank_str(self.llm.initial_prompt.as_str()) {
            return Err(ConfigError::EmptyInitialPrompt);
        }
        Ok(())
    }

    /// Takes in an API key from the environment: it replaces the configured key
    /// when that is blank and it is not; otherwise nothing changes.
    pub fn resolve_llm_api_key(&mut self, env_api_key: Option<String>)
        ensures
            *final(self) == with_resolved_key(*old(self), env_api_key),
    {
        if !is_blank_str(self.llm.api_key.as_str()) {
            return;
        }
        if let Some(api_key) = env_api_key {
            if !is_blank_str(api_key.as_str()) {
                self.llm.api_key = api_key;
            }
        }
    }
}

/// The checks made on a configuration once it is read: the API key from the
/// environment is taken in, then the terminal size and the language-model
/// settings are checked; the first failure is returned.
pub fn finish_loading(config: SessionConfig, env_api_key: Option<String>) -> (r: Result<
    SessionConfig,
    ConfigError,
>)
    requires
        env_names_distinct(config.shell.env@),
    ensures
        r is Ok <==> valid_size(config.shell.env@) && valid_llm(
            with_resolved_key(config, env_api_key).llm,
        ),
        r matches Ok(c) ==> c == with_resolved_key(config, env_api_key),
        r matches Err(e) ==> if !valid_size(config.shell.env@) {
            size_error(config.shell.env@, e)
        } else {
            e == ConfigError::EmptyApiKey || e == ConfigError::EmptyInitialPrompt
        },
{
    let mut config = config;
    config.resolve_llm_api_key(env_api_key);
    match config.terminal_size() {
        Ok(_) => {},
        Err(e) => {
            return Err(e);
        },
    }
    match config.validate_llm() {
        Ok(()) => Ok(config),
        Err(e) => Err(e),
    }
}

} // verus!
