//! The automation configuration that the host loads and whose path it
//! forwards to the worker.
use vstd::prelude::*;
use vstd::string::*;

verus! {

#[derive(Clone, Copy, Debug, PartialEq, Eq, Structural)]
pub enum ExecutionMode {
    Real,
    Mock,
    Screenshot,
}

pub open spec fn mode_name(m: ExecutionMode) -> Seq<char> {
    match m {
        ExecutionMode::Real => "real"@,
        ExecutionMode::Mock => "mock"@,
        ExecutionMode::Screenshot => "screenshot"@,
    }
}

impl ExecutionMode {
    /// The mode's name, in lower case.
    pub fn as_str(&self) -> (r: &'static str)
        ensures
            r@ == mode_name(*self),
    {
        match self {
            ExecutionMode::Real => "real",
            ExecutionMode::Mock => "mock",
            ExecutionMode::Screenshot => "screenshot",
        }
    }

    pub fn is_mock(&self) -> (r: bool)
        ensures
            r == (*self == ExecutionMode::Mock),
    {
        matches!(self, ExecutionMode::Mock)
    }

    pub fn is_screenshot(&self) -> (r: bool)
        ensures
            r == (*self == ExecutionMode::Screenshot),
    {
        matches!(self, ExecutionMode::Screenshot)
    }

    pub fn is_real(&self) -> (r: bool)
        ensures
            r == (*self == ExecutionMode::Real),
    {
        matches!(self, ExecutionMode::Real)
    }
}

impl Default for ExecutionMode {
    /// Real execution, unless a configuration says otherwise.
    fn default() -> (r: ExecutionMode)
        ensures
            r == ExecutionMode::Real,
    {
        ExecutionMode::Real
    }
}

#[derive(Clone, Debug)]
pub struct ExecutionSettings {
    pub default_timeout: Option<u64>,
    pub default_retry_count: Option<u32>,
    pub action_delay: Option<u64>,
    pub failure_strategy: Option<String>,
    pub headless: Option<bool>,
    pub use_graph_execution: Option<bool>,
    pub execution_mode: Option<ExecutionMode>,
    pub screenshot_directory: Option<String>,
}

#[derive(Clone, Debug)]
pub struct Settings {
    pub execution: Option<ExecutionSettings>,
    pub recognition: Option<serde_json::Value>,
    pub logging: Option<serde_json::Value>,
    pub performance: Option<serde_json::Value>,
}

#[derive(Clone, Debug)]
pub struct ConfigMetadata {
    pub name: String,
    pub description: Option<String>,
    pub author: Option<String>,
    pub created: Option<String>,
    pub modified: Option<String>,
    pub tags: Vec<String>,
    pub target_application: Option<String>,
}

#[derive(Clone, Debug)]
pub struct QontinuiConfig {
    pub version: String,
    pub metadata: ConfigMetadata,
    pub images: Vec<serde_json::Value>,
    pub workflows: Vec<serde_json::Value>,
    pub states: Vec<serde_json::Value>,
    pub transitions: Vec<serde_json::Value>,
    pub categories: Vec<String>,
    pub settings: Option<Settings>,
}

/// What is wrong with a configuration, in the order of checking: a missing
/// version, no state, a missing name.
pub open spec fn validation_errors(c: QontinuiConfig) -> Seq<Seq<char>> {
    let a: Seq<Seq<char>> = if c.version@.len() == 0 {
        seq!["Configuration version is required"@]
    } else {
        seq![]
    };
    let b: Seq<Seq<char>> = if c.states@.len() == 0 {
        a.push("At least one state is required"@)
    } else {
        a
    };
    if c.metadata.name@.len() == 0 {
        b.push("Configuration name is required"@)
    } else {
        b
    }
}

pub open spec fn texts(v: Seq<String>) -> Seq<Seq<char>> {
    v.map_values(|s: String| s@)
}

/// Texts joined with a separator between each two.
pub open spec fn joined(v: Seq<Seq<char>>, sep: Seq<char>) -> Seq<char>
    decreases v.len(),
{
    if v.len() == 0 {
        seq![]
    } else if v.len() == 1 {
        v[0]
    } else {
        joined(v.drop_last(), sep) + sep + v.last()
    }
}

/// The mode that a configuration's settings give, real when they give none.
pub open spec fn mode_of(c: QontinuiConfig) -> ExecutionMode {
    match c.settings {
        Some(s) => match s.execution {
            Some(e) => match e.execution_mode {
                Some(m) => m,
                None => ExecutionMode::Real,
            },
            None => ExecutionMode::Real,
        },
        None => ExecutionMode::Real,
    }
}

/// The screenshot directory that a configuration's settings give.
pub open spec fn screenshot_dir_of(c: QontinuiConfig) -> Option<String> {
    match c.settings {
        Some(s) => match s.execution {
            Some(e) => e.screenshot_directory,
            None => None,
        },
        None => None,
    }
}

pub open spec fn digit(d: nat) -> char {
    if d == 0 { '0' } else if d == 1 { '1' } else if d == 2 { '2' } else if d == 3 { '3' }
    else if d == 4 { '4' } else if d == 5 { '5' } else if d == 6 { '6' } else if d == 7 { '7' }
    else if d == 8 { '8' } else { '9' }
}

/// A number in decimal, without leading zeros.
pub open spec fn decimal(n: nat) -> Seq<char>
    decreases n,
{
    if n < 10 {
        seq![digit(n)]
    } else {
        decimal(n / 10).push(digit(n % 10))
    }
}

fn digit_text(d: usize) -> (r: &'static str)
    requires
        d < 10,
    ensures
        r@ == seq![digit(d as nat)],
{
    proof {
        reveal_strlit("0");
        reveal_strlit("1");
        reveal_strlit("2");
        reveal_strlit("3");
        reveal_strlit("4");
        reveal_strlit("5");
        reveal_strlit("6");
        reveal_strlit("7");
        reveal_strlit("8");
        reveal_strlit("9");
    }
    if d == 0 { "0" } else if d == 1 { "1" } else if d == 2 { "2" } else if d == 3 { "3" }
    else if d == 4 { "4" } else if d == 5 { "5" } else if d == 6 { "6" } else if d == 7 { "7" }
    else if d == 8 { "8" } else { "9" }
}

/// A count in decimal.
pub fn count_text(n: usize) -> (r: String)
    ensures
        r@ == decimal(n as nat),
    decreases n,
{
    if n < 10 {
        String::from_str(digit_text(n))
    } else {
        let mut out = count_text(n / 10);
        out.append(digit_text(n % 10));
        out
    }
}

/// The two-line summary of a configuration.
pub open spec fn summary_text(c: QontinuiConfig) -> Seq<char> {
    "Configuration: "@ + c.metadata.name@ + " (v"@ + c.version@ + ")\nStates: "@
        + decimal(c.states@.len()) + ", Workflows: "@ + decimal(c.workflows@.len())
        + ", Transitions: "@ + decimal(c.transitions@.len()) + ", Images: "@
        + decimal(c.images@.len()) + ", Categories: "@ + decimal(c.categories@.len())
}

impl QontinuiConfig {
    /// Checks that the configuration has a version, a state and a name;
    /// lists every check that fails.
    pub fn validate(&self) -> (r: Result<(), Vec<String>>)
        ensures
            r is Ok <==> validation_errors(*self).len() == 0,
            r matches Err(v) ==> texts(v@) == validation_errors(*self),
    {
        let mut errors: Vec<String> = Vec::new();
        if self.version.as_str().is_empty() {
            errors.push(String::from_str("Configuration version is required"));
        }
        let ghost a = texts(errors@);
        if self.states.is_empty() {
            errors.push(String::from_str("At least one state is required"));
            assert(texts(errors@) =~= a.push("At least one state is required"@));
        }
        let ghost b = texts(errors@);
        if self.metadata.name.as_str().is_empty() {
            errors.push(String::from_str("Configuration name is required"));
            assert(texts(errors@) =~= b.push("Configuration name is required"@));
        }
        assert(texts(errors@) =~= validation_errors(*self));
        if errors.is_empty() {
            Ok(())
        } else {
            Err(errors)
        }
    }

    /// A two-line summary: name and version, then how many states,
    /// workflows, transitions, images and categories there are.
    pub fn summary(&self) -> (r: String)
        ensures
            r@ == summary_text(*self),
    {
        let mut out = String::from_str("Configuration: ");
        out.append(self.metadata.name.as_str());
        out.append(" (v");
        out.append(self.version.as_str());
        out.append(")\nStates: ");
        out.append(count_text(self.states.len()).as_str());
        out.append(", Workflows: ");
        out.append(count_text(self.workflows.len()).as_str());
        out.append(", Transitions: ");
        out.append(count_text(self.transitions.len()).as_str());
        out.append(", Images: ");
        out.append(count_text(self.images.len()).as_str());
        out.append(", Categories: ");
        out.append(count_text(self.categories.len()).as_str());
        out
    }

    pub fn get_execution_mode(&self) -> (r: ExecutionMode)
        ensures
            r == mode_of(*self),
    {
        match &self.settings {
            Some(s) => match &s.execution {
                Some(e) => match e.execution_mode {
                    Some(m) => m,
                    None => ExecutionMode::Real,
                },
                None => ExecutionMode::Real,
            },
            None => ExecutionMode::Real,
        }
    }

    pub fn get_screenshot_directory(&self) -> (r: Option<String>)
        ensures
            r == screenshot_dir_of(*self),
    {
        match &self.settings {
            Some(s) => match &s.execution {
                Some(e) => match &e.screenshot_directory {
                    Some(d) => Some(d.clone()),
                    None => None,
                },
                None => None,
            },
            None => None,
        }
    }

    pub fn is_mock_mode(&self) -> (r: bool)
        ensures
            r == (mode_of(*self) == ExecutionMode::Mock),
    {
        self.get_execution_mode().is_mock()
    }

    pub fn is_screenshot_mode(&self) -> (r: bool)
        ensures
            r == (mode_of(*self) == ExecutionMode::Screenshot),
    {
        self.get_execution_mode().is_screenshot()
    }

    pub fn is_real_mode(&self) -> (r: bool)
        ensures
            r == (mode_of(*self) == ExecutionMode::Real),
    {
        self.get_execution_mode().is_real()
    }
}

/// Accepts a parsed configuration only when it is valid.
#[derive(Debug)]
pub struct ConfigLoader;

impl ConfigLoader {
    /// The configuration when it is valid; else every problem found, joined
    /// with `, `.
    pub fn accept(config: QontinuiConfig) -> (r: Result<QontinuiConfig, String>)
        ensures
            r is Ok <==> validation_errors(config).len() == 0,
            r matches Ok(c) ==> c == config,
            r matches Err(m) ==> m@ == joined(validation_errors(config), ", "@),
    {
        match config.validate() {
            Ok(()) => Ok(config),
            Err(errors) => Err(join_texts(&errors, ", ")),
        }
    }
}

/// Joins texts with a separator between each two.
pub fn join_texts(v: &Vec<String>, sep: &str) -> (r: String)
    ensures
        r@ == joined(texts(v@), sep@),
{
    let mut out = String::new();
    let mut i: usize = 0;
    while i < v.len()
        invariant
            i <= v@.len(),
            out@ == joined(texts(v@).take(i as int), sep@),
        decreases v@.len() - i,
    {
        let ghost t = texts(v@);
        assert(t.take(i as int + 1).drop_last() =~= t.take(i as int));
        if i > 0 {
            out.append(sep);
        }
        out.append(v[i].as_str());
        i = i + 1;
    }
    assert(texts(v@).take(v@.len() as int) =~= texts(v@));
    out
}

} // verus!
