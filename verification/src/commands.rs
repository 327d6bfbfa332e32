//! The command line: global options and every command with its arguments,
//! as plain values. Parsing the command line into these values is done by
//! the caller.
use vstd::prelude::*;
use crate::bench::Scenario;
use crate::output::OutputFormat;

verus! {

/// The global options and the command to run.
pub struct Cli {
    /// Orion server URL (overrides the configuration).
    pub server: Option<String>,
    /// Output format.
    pub output: OutputFormat,
    /// Print only IDs or minimal information.
    pub quiet: bool,
    /// Show full response bodies and extra details.
    pub verbose: bool,
    /// Disable coloured output.
    pub no_color: bool,
    /// Skip confirmation prompts.
    pub yes: bool,
    /// API key (overrides the configuration).
    pub api_key: Option<String>,
    /// Header that carries the API key.
    pub api_key_header: Option<String>,
    /// The command.
    pub command: Commands,
}

/// The commands.
pub enum Commands {
    Benchmark(BenchmarkCmd),
    Config(ConfigCmd),
    Health,
    Workflows(WorkflowsCmd),
    Channels(ChannelsCmd),
    Connectors(ConnectorsCmd),
    Send(SendCmd),
    Traces(TracesCmd),
    Jobs(JobsCmd),
    Engine(EngineCmd),
    Metrics(MetricsCmd),
    Completions(CompletionsCmd),
    AuditLogs(AuditLogsCmd),
    Backups(BackupsCmd),
    Mcp(McpCmd),
}

/// Where a JSON input comes from: a file, an inline text or standard input.
pub struct JsonInput {
    pub file: Option<String>,
    pub data: Option<String>,
    pub stdin: bool,
}

/// `benchmark`.
pub struct BenchmarkCmd {
    pub requests: usize,
    pub concurrency: usize,
    pub timeout: u64,
    pub scenario: Scenario,
    pub workflow: Option<String>,
    pub channel: Option<String>,
    pub file: Option<String>,
    pub data: Option<String>,
    pub cleanup_only: bool,
}

/// `config`.
pub struct ConfigCmd {
    pub command: ConfigSubcommand,
}

/// The `config` subcommands.
pub enum ConfigSubcommand {
    SetServer { url: String },
    Show,
    Get { key: String },
    SetKey { key: String, value: String },
}

/// `workflows`.
pub struct WorkflowsCmd {
    pub command: WorkflowsSubcommand,
}

/// The `workflows` subcommands.
pub enum WorkflowsSubcommand {
    List { status: Option<String>, tag: Option<String> },
    Get { id: String },
    Create { id: Option<String>, file: Option<String>, data: Option<String> },
    Update { id: String, file: Option<String>, data: Option<String> },
    Delete { id: String },
    Activate { id: String },
    Archive { id: String },
    Validate { file: Option<String>, data: Option<String> },
    Rollout { id: String, percentage: i64 },
    Versions { id: String },
    NewVersion { id: String },
    Test {
        id: String,
        file: Option<String>,
        data: Option<String>,
        stdin: bool,
        metadata: Option<String>,
        trace: bool,
    },
    Export { status: Option<String>, tag: Option<String> },
    Import { file: String, dry_run: bool },
    Diff { file: String },
}

/// `rules`.
pub struct RulesCmd {
    pub command: RulesSubcommand,
}

/// The `rules` subcommands.
pub enum RulesSubcommand {
    List { status: Option<String>, channel: Option<String>, tag: Option<String> },
    Get { id: String },
    Create { file: Option<String>, data: Option<String> },
    Update { id: String, file: Option<String>, data: Option<String> },
    Delete { id: String },
    Activate { id: String },
    Pause { id: String },
    Archive { id: String },
    Test {
        id: String,
        file: Option<String>,
        data: Option<String>,
        stdin: bool,
        metadata: Option<String>,
        trace: bool,
    },
    Export { status: Option<String>, channel: Option<String>, tag: Option<String> },
    Import { file: String, dry_run: bool },
    Diff { file: String },
}

/// `channels`.
pub struct ChannelsCmd {
    pub command: ChannelsSubcommand,
}

/// The `channels` subcommands.
pub enum ChannelsSubcommand {
    List {
        status: Option<String>,
        channel_type: Option<String>,
        protocol: Option<String>,
        limit: Option<i64>,
        offset: Option<i64>,
    },
    Get { id: String },
    Create { file: Option<String>, data: Option<String>, stdin: bool },
    Update { id: String, file: Option<String>, data: Option<String>, stdin: bool },
    Delete { id: String },
    Activate { id: String },
    Archive { id: String },
    Versions { id: String },
    NewVersion { id: String },
}

/// `connectors`.
pub struct ConnectorsCmd {
    pub command: ConnectorsSubcommand,
}

/// The `connectors` subcommands.
pub enum ConnectorsSubcommand {
    List { limit: Option<i64>, offset: Option<i64> },
    Get { id: String },
    Create { file: Option<String>, data: Option<String> },
    Update { id: String, file: Option<String>, data: Option<String> },
    Delete { id: String },
    Enable { id: String },
    Disable { id: String },
    CircuitBreakers,
    ResetBreaker { key: String },
}

/// `send`.
pub struct SendCmd {
    pub channel: String,
    pub file: Option<String>,
    pub data: Option<String>,
    pub stdin: bool,
    pub async_mode: bool,
    pub wait: bool,
    pub timeout: u64,
    pub metadata: Option<String>,
}

/// `traces`.
pub struct TracesCmd {
    pub command: TracesSubcommand,
}

/// The `traces` subcommands.
pub enum TracesSubcommand {
    List {
        status: Option<String>,
        channel: Option<String>,
        mode: Option<String>,
        sort_by: Option<String>,
        sort_order: Option<String>,
        limit: Option<i64>,
        offset: Option<i64>,
    },
    Get { id: String },
    Wait { id: String, interval: u64, timeout: u64 },
}

/// `jobs`.
pub struct JobsCmd {
    pub command: JobsSubcommand,
}

/// The `jobs` subcommands.
pub enum JobsSubcommand {
    Get { id: String },
    Wait { id: String, interval: u64, timeout: u64 },
}

/// `engine`.
pub struct EngineCmd {
    pub command: EngineSubcommand,
}

/// The `engine` subcommands.
pub enum EngineSubcommand {
    Status,
    Reload,
}

/// `metrics`.
pub struct MetricsCmd {
    /// Print the raw Prometheus text.
    pub raw: bool,
}

/// The shells completions are generated for.
#[derive(Clone, Copy, PartialEq, Eq, Debug)]
pub enum Shell {
    Bash,
    Elvish,
    Fish,
    PowerShell,
    Zsh,
}

/// `completions`.
pub struct CompletionsCmd {
    pub shell: Shell,
}

/// `audit-logs`.
pub struct AuditLogsCmd {
    pub command: AuditLogsSubcommand,
}

/// The `audit-logs` subcommands.
pub enum AuditLogsSubcommand {
    List { limit: Option<i64>, offset: Option<i64> },
}

/// `backups`.
pub struct BackupsCmd {
    pub command: BackupsSubcommand,
}

/// The `backups` subcommands.
pub enum BackupsSubcommand {
    Create,
    List,
}

/// `functions`.
pub struct FunctionsCmd {
    pub command: FunctionsSubcommand,
}

/// The `functions` subcommands.
pub enum FunctionsSubcommand {
    List,
}

/// `mcp`.
pub struct McpCmd {
    pub command: McpCommands,
}

/// The `mcp` subcommands.
pub enum McpCommands {
    Serve(ServeArgs),
}

/// Arguments of `mcp serve`.
pub struct ServeArgs {
    /// Use the HTTP transport instead of standard input and output.
    pub http: bool,
    /// Address the HTTP transport binds to.
    pub bind: String,
}

/// The message when a command needs a server and none is configured.
pub open spec fn no_server_configured(hint_set_server: Seq<char>, hint_flag: Seq<char>) -> Seq<char> {
    "No server URL configured. Run "@ + hint_set_server + " or use "@ + hint_flag
}

impl Cli {
    /// Whether results are written as documents (JSON or YAML).
    pub fn structured(&self) -> (b: bool)
        ensures
            b == (self.output is Json || self.output is Yaml),
    {
        self.output.is_structured()
    }
}

/// Where a command reads its JSON input from.
#[derive(Clone, PartialEq, Eq, Debug)]
pub enum InputSource {
    /// The file at this path.
    File(String),
    /// This inline text.
    Inline(String),
    /// Standard input.
    Stdin,
}

/// The message when a command has no JSON input.
pub open spec fn no_input_message() -> Seq<char> {
    "Provide input with -f <file>, -d '<json>', or --stdin"@
}

/// Chooses where JSON input comes from: a file first, then inline data,
/// then standard input when asked for; none of them is an error.
pub fn input_source(file: Option<&str>, data: Option<&str>, stdin: bool) -> (res: Result<InputSource, String>)
    ensures
        match (file, data) {
            (Some(f), _) => res matches Ok(InputSource::File(p)) && p@ == f@,
            (None, Some(d)) => res matches Ok(InputSource::Inline(t)) && t@ == d@,
            (None, None) => if stdin {
                res matches Ok(InputSource::Stdin)
            } else {
                res is Err && res->Err_0@ == no_input_message()
            },
        },
{
    match file {
        Some(f) => Ok(InputSource::File(f.to_owned())),
        None => match data {
            Some(d) => Ok(InputSource::Inline(d.to_owned())),
            None => {
                if stdin {
                    Ok(InputSource::Stdin)
                } else {
                    Err(String::from_str("Provide input with -f <file>, -d '<json>', or --stdin"))
                }
            },
        },
    }
}

/// The question asked before deleting a resource: "Delete <noun> <id>?".
pub fn delete_prompt(noun: &str, id: &str) -> (p: String)
    ensures
        p@ == "Delete "@ + noun@ + " "@ + id@ + "?"@,
{
    let mut p = String::from_str("Delete ");
    crate::strings::push_str(&mut p, noun);
    crate::strings::push_str(&mut p, " ");
    crate::strings::push_str(&mut p, id);
    crate::strings::push_str(&mut p, "?");
    p
}

/// Whether the user agreed: `--yes` was given, or the typed answer
/// confirms.
pub fn agreed(yes: bool, answer: &str) -> (b: bool)
    ensures
        b == (yes || crate::text::confirms(answer@)),
{
    yes || crate::text::is_confirmed(answer)
}

/// Whether a definition can take a custom workflow id: it is an object,
/// or null (which becomes an object); setting a field of any other value
/// panics.
pub open spec fn accepts_custom_id(body: crate::json::JsonValue, id: Option<String>) -> bool {
    id is Some ==> crate::json::is_object_or_null(body)
}

/// Whether `with_custom_id` can be called (see `accepts_custom_id`).
pub fn can_take_custom_id(body: &serde_json::Value, id: &Option<String>) -> (b: bool)
    ensures
        b == accepts_custom_id(crate::json::json_content(*body), *id),
{
    match id {
        None => true,
        Some(_) => crate::json::as_object_or_null(body),
    }
}

/// The definition `workflows create --id <id>` sends: `workflow_id` set to
/// the custom id when one is given.
pub fn with_custom_id(body: serde_json::Value, id: &Option<String>) -> (v: serde_json::Value)
    requires
        accepts_custom_id(crate::json::json_content(body), *id),
    ensures
        crate::json::json_content(v) == match id {
            Some(w) => crate::json::with_field(crate::json::json_content(body), "workflow_id"@, crate::json::JsonValue::Str(w@)),
            None => crate::json::json_content(body),
        },
{
    let mut body = body;
    match id {
        Some(w) => {
            crate::json::set_field(&mut body, "workflow_id", crate::json::string(w.clone()));
        },
        None => {},
    }
    body
}

} // verus!
