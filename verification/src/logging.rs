//! Decisions of the wasmCloud logging capability provider, which keeps a
//! separate log output for each actor.
//!
//! The host calls the provider with an operation, the calling actor and a
//! message-pack payload. Binding an actor names the file its log goes to;
//! writing a log sends a line, tagged with the actor, to that actor's own
//! logger. Opening files and writing lines is left to the caller: the
//! provider decides, for each call, what is to be done or which error is
//! answered.

use crate::registry::{pairs_to_map, Registry};
use crate::text::same_text;
use vstd::prelude::*;

verus! {

/// The configuration key that names the file an actor's log goes to.
pub const LOG_PATH_KEY: &'static str = "LOG_PATH";

/// The origin of the calls that the host itself makes.
pub const SYSTEM_ACTOR: &'static str = "system";

/// What a message-pack payload decodes to as a `CapabilityConfiguration` of
/// `wasmcloud_actor_core`: its module name and its configuration values, or
/// the text of the decoding error.
pub uninterp spec fn msgpack_capability_configuration(msg: Seq<u8>) -> Result<
    (Seq<char>, Map<Seq<char>, Seq<char>>),
    Seq<char>,
>;

/// What a message-pack payload decodes to as a `WriteLogArgs` of
/// `wasmcloud_actor_logging`: its target, level and text, or the text of the
/// decoding error.
pub uninterp spec fn msgpack_write_log_args(msg: Seq<u8>) -> Result<
    (Seq<char>, Seq<char>, Seq<char>),
    Seq<char>,
>;

/// The message-pack encoding of a `HealthCheckResponse` of
/// `wasmcloud_actor_core`, or the text of the encoding error.
pub uninterp spec fn msgpack_health_check_response(healthy: bool, message: Seq<char>) -> Result<
    Seq<u8>,
    Seq<char>,
>;

/// The text form of key/value pairs stored one after another.
pub open spec fn pairs_text(pairs: Seq<(String, String)>) -> Map<Seq<char>, Seq<char>> {
    pairs_to_map(pairs).map_values(|v: String| v@)
}

/// Calls `wasmcloud_provider_core::deserialize` on the payload, as a
/// `wasmcloud_actor_core::CapabilityConfiguration`. Claimed: the module name
/// and the configuration values (as pairs, in no particular order) are what
/// the payload decodes to, and an error gives the error's text.
#[verifier::external_body]
fn decode_capability_configuration(msg: &[u8]) -> (r: Result<(String, Vec<(String, String)>), String>)
    ensures
        match r {
            Ok((module, values)) => msgpack_capability_configuration(msg@) == Ok::<
                (Seq<char>, Map<Seq<char>, Seq<char>>),
                Seq<char>,
            >((module@, pairs_text(values@))),
            Err(e) => msgpack_capability_configuration(msg@) == Err::<
                (Seq<char>, Map<Seq<char>, Seq<char>>),
                Seq<char>,
            >(e@),
        },
{
    match wasmcloud_provider_core::deserialize::<wasmcloud_actor_core::CapabilityConfiguration>(msg) {
        Ok(config) => Ok((config.module, config.values.into_iter().collect())),
        Err(e) => Err(e.to_string()),
    }
}

/// Calls `wasmcloud_provider_core::deserialize` on the payload, as a
/// `wasmcloud_actor_logging::WriteLogArgs`. Claimed: the target, level and
/// text are what the payload decodes to, and an error gives the error's text.
#[verifier::external_body]
fn decode_write_log_args(msg: &[u8]) -> (r: Result<(String, String, String), String>)
    ensures
        match r {
            Ok((target, level, text)) => msgpack_write_log_args(msg@) == Ok::<
                (Seq<char>, Seq<char>, Seq<char>),
                Seq<char>,
            >((target@, level@, text@)),
            Err(e) => msgpack_write_log_args(msg@) == Err::<
                (Seq<char>, Seq<char>, Seq<char>),
                Seq<char>,
            >(e@),
        },
{
    match wasmcloud_provider_core::deserialize::<wasmcloud_actor_logging::WriteLogArgs>(msg) {
        Ok(args) => Ok((args.target, args.level, args.text)),
        Err(e) => Err(e.to_string()),
    }
}

/// The message-pack encoding, as a map of its two named fields, of a health
/// check response with an empty message.
pub open spec fn health_payload(healthy: bool) -> Seq<u8> {
    seq![
        0x82u8, 0xa7u8, 104u8, 101u8, 97u8, 108u8, 116u8, 104u8, 121u8,
        if healthy { 0xc3u8 } else { 0xc2u8 },
        0xa7u8, 109u8, 101u8, 115u8, 115u8, 97u8, 103u8, 101u8,
        0xa0u8,
    ]
}

/// Calls `wasmcloud_provider_core::serialize` on a
/// `wasmcloud_actor_core::HealthCheckResponse` with these fields. Claimed: the
/// bytes are its encoding, and an error gives the error's text; with an
/// empty message the encoding succeeds and is the map `{"healthy": healthy,
/// "message": ""}` (the crate writes structs as maps of their field names).
#[verifier::external_body]
fn encode_health_check_response(healthy: bool, message: String) -> (r: Result<Vec<u8>, String>)
    ensures
        match r {
            Ok(bytes) => {
                &&& msgpack_health_check_response(healthy, message@) == Ok::<Seq<u8>, Seq<char>>(
                    bytes@,
                )
                &&& message@.len() == 0 ==> bytes@ == health_payload(healthy)
            },
            Err(e) => {
                &&& msgpack_health_check_response(healthy, message@) == Err::<Seq<u8>, Seq<char>>(
                    e@,
                )
                &&& message@.len() != 0
            },
        },
{
    let response = wasmcloud_actor_core::HealthCheckResponse { healthy, message };
    match wasmcloud_provider_core::serialize(response) {
        Ok(bytes) => Ok(bytes),
        Err(e) => Err(e.to_string()),
    }
}

/// Reads `wasmcloud_provider_core::core::OP_BIND_ACTOR`, which the crate
/// defines as `"BindActor"`.
#[verifier::external_body]
fn op_bind_actor() -> (r: &'static str)
    ensures
        r@ == "BindActor"@,
{
    wasmcloud_provider_core::core::OP_BIND_ACTOR
}

/// Reads `wasmcloud_provider_core::core::OP_REMOVE_ACTOR`, which the crate
/// defines as `"RemoveActor"`.
#[verifier::external_body]
fn op_remove_actor() -> (r: &'static str)
    ensures
        r@ == "RemoveActor"@,
{
    wasmcloud_provider_core::core::OP_REMOVE_ACTOR
}

/// Reads `wasmcloud_provider_core::core::OP_HEALTH_REQUEST`, which the crate
/// defines as `"HealthRequest"`.
#[verifier::external_body]
fn op_health_request() -> (r: &'static str)
    ensures
        r@ == "HealthRequest"@,
{
    wasmcloud_provider_core::core::OP_HEALTH_REQUEST
}

/// Reads `wasmcloud_actor_logging::OP_LOG`, which the crate defines as
/// `"WriteLog"`.
#[verifier::external_body]
fn op_log() -> (r: &'static str)
    ensures
        r@ == "WriteLog"@,
{
    wasmcloud_actor_logging::OP_LOG
}

/// The severity of a log line.
#[derive(PartialEq, Eq, Structural, Clone, Copy, Debug)]
pub enum LogLevel {
    Error,
    Warn,
    Info,
    Debug,
    Trace,
}

/// The level that an actor names, if it names one of the five.
pub open spec fn spec_level(level: Seq<char>) -> Option<LogLevel> {
    if level == "error"@ {
        Some(LogLevel::Error)
    } else if level == "warn"@ {
        Some(LogLevel::Warn)
    } else if level == "info"@ {
        Some(LogLevel::Info)
    } else if level == "debug"@ {
        Some(LogLevel::Debug)
    } else if level == "trace"@ {
        Some(LogLevel::Trace)
    } else {
        None
    }
}

/// The errors that a call can be answered with.
pub enum LoggingError {
    /// The binding named no log file.
    PathUnspecified,
    /// The level of a log line is none of the five.
    UnknownLevel { level: String },
    /// The actor writing a log line was never bound.
    LoggerNotFound { actor: String },
    /// The operation is not one this provider handles.
    UnknownOperation { op: String },
    /// A payload could not be decoded or encoded; the outside error's text.
    Codec { message: String },
}

/// The errors, with their texts as character sequences.
pub enum LoggingErrorView {
    PathUnspecified,
    UnknownLevel(Seq<char>),
    LoggerNotFound(Seq<char>),
    UnknownOperation(Seq<char>),
    Codec(Seq<char>),
}

impl View for LoggingError {
    type V = LoggingErrorView;

    open spec fn view(&self) -> LoggingErrorView {
        match self {
            LoggingError::PathUnspecified => LoggingErrorView::PathUnspecified,
            LoggingError::UnknownLevel { level } => LoggingErrorView::UnknownLevel(level@),
            LoggingError::LoggerNotFound { actor } => LoggingErrorView::LoggerNotFound(actor@),
            LoggingError::UnknownOperation { op } => LoggingErrorView::UnknownOperation(op@),
            LoggingError::Codec { message } => LoggingErrorView::Codec(message@),
        }
    }
}

/// The text an error is reported with.
pub open spec fn error_text(e: LoggingErrorView) -> Seq<char> {
    match e {
        LoggingErrorView::PathUnspecified => "log file path was unspecified"@,
        LoggingErrorView::UnknownLevel(level) => "Unknown log level "@ + level,
        LoggingErrorView::LoggerNotFound(actor) => "Unable to find logger for actor "@ + actor,
        LoggingErrorView::UnknownOperation(op) => "Unknown operation: "@ + op,
        LoggingErrorView::Codec(message) => message,
    }
}

impl LoggingError {
    /// The text this error is reported with.
    pub fn message(&self) -> (r: String)
        ensures
            r@ == error_text(self@),
    {
        match self {
            LoggingError::PathUnspecified => String::from_str("log file path was unspecified"),
            LoggingError::UnknownLevel { level } => String::from_str("Unknown log level ").concat(
                level.as_str(),
            ),
            LoggingError::LoggerNotFound { actor } => String::from_str(
                "Unable to find logger for actor ",
            ).concat(actor.as_str()),
            LoggingError::UnknownOperation { op } => String::from_str("Unknown operation: ").concat(
                op.as_str(),
            ),
            LoggingError::Codec { message } => message.clone(),
        }
    }
}

/// Reads the level of a log line.
pub fn parse_level(level: &str) -> (r: Result<LogLevel, LoggingError>)
    ensures
        match r {
            Ok(l) => spec_level(level@) == Some(l),
            Err(e) => spec_level(level@) is None && e@ == LoggingErrorView::UnknownLevel(level@),
        },
{
    if same_text(level, "error") {
        Ok(LogLevel::Error)
    } else if same_text(level, "warn") {
        Ok(LogLevel::Warn)
    } else if same_text(level, "info") {
        Ok(LogLevel::Info)
    } else if same_text(level, "debug") {
        Ok(LogLevel::Debug)
    } else if same_text(level, "trace") {
        Ok(LogLevel::Trace)
    } else {
        Err(LoggingError::UnknownLevel { level: String::from_str(level) })
    }
}

/// The kinds of call the provider tells apart.
#[derive(PartialEq, Eq, Structural, Clone, Copy, Debug)]
pub enum CallKind {
    /// The host binds an actor to this capability.
    BindActor,
    /// The host unbinds an actor.
    RemoveActor,
    /// The host asks whether the provider is healthy.
    HealthRequest,
    /// An actor writes a log line.
    WriteLog,
    /// Anything else.
    Unknown,
}

/// Which kind of call an operation from an actor is: binding, unbinding and
/// health requests count only when the host itself makes them.
pub open spec fn spec_call_kind(op: Seq<char>, actor: Seq<char>) -> CallKind {
    if op == "BindActor"@ && actor == SYSTEM_ACTOR@ {
        CallKind::BindActor
    } else if op == "RemoveActor"@ && actor == SYSTEM_ACTOR@ {
        CallKind::RemoveActor
    } else if op == "HealthRequest"@ && actor == SYSTEM_ACTOR@ {
        CallKind::HealthRequest
    } else if op == "WriteLog"@ {
        CallKind::WriteLog
    } else {
        CallKind::Unknown
    }
}

/// Which kind of call an operation from an actor is.
pub fn call_kind(op: &str, actor: &str) -> (r: CallKind)
    ensures
        r == spec_call_kind(op@, actor@),
{
    let from_host = same_text(actor, SYSTEM_ACTOR);
    if same_text(op, op_bind_actor()) && from_host {
        CallKind::BindActor
    } else if same_text(op, op_remove_actor()) && from_host {
        CallKind::RemoveActor
    } else if same_text(op, op_health_request()) && from_host {
        CallKind::HealthRequest
    } else if same_text(op, op_log()) {
        CallKind::WriteLog
    } else {
        CallKind::Unknown
    }
}

/// The data sent to the provider when an actor is bound to it.
pub struct CapabilityConfig {
    /// The bound actor.
    pub module: String,
    /// The actor's configuration values.
    pub values: Registry<String>,
}

/// A log line that an actor asks to write.
pub struct LogRequest {
    /// The log target.
    pub target: String,
    /// The level's name.
    pub level: String,
    /// The text of the line.
    pub text: String,
}

/// A log line to be written to an actor's logger.
pub struct LogEntry {
    /// The line's level.
    pub level: LogLevel,
    /// The log target.
    pub target: String,
    /// The line itself, tagged with the actor.
    pub line: String,
}

/// What the provider decided a call needs.
pub enum CallOutcome {
    /// Open the log file at `path` and keep a logger on it for `module`;
    /// the answer is an empty payload.
    Configure { module: String, path: String },
    /// Answer with this payload.
    Reply { payload: Vec<u8> },
    /// Write this line to the calling actor's logger; the answer is an
    /// empty payload.
    Write { entry: LogEntry },
}

/// The outcomes, with texts and payloads as sequences.
pub enum CallOutcomeView {
    Configure(Seq<char>, Seq<char>),
    Reply(Seq<u8>),
    Write(LogLevel, Seq<char>, Seq<char>),
}

impl View for CallOutcome {
    type V = CallOutcomeView;

    open spec fn view(&self) -> CallOutcomeView {
        match self {
            CallOutcome::Configure { module, path } => CallOutcomeView::Configure(module@, path@),
            CallOutcome::Reply { payload } => CallOutcomeView::Reply(payload@),
            CallOutcome::Write { entry } => CallOutcomeView::Write(
                entry.level,
                entry.target@,
                entry.line@,
            ),
        }
    }
}

/// A call's result, as sequences.
pub open spec fn result_view(r: Result<CallOutcome, LoggingError>) -> Result<
    CallOutcomeView,
    LoggingErrorView,
> {
    match r {
        Ok(o) => Ok(o@),
        Err(e) => Err(e@),
    }
}

/// The line written for an actor: the actor in square brackets, a space, the text.
pub open spec fn log_line(actor: Seq<char>, text: Seq<char>) -> Seq<char> {
    "["@ + actor + "] "@ + text
}

/// What binding an actor with these configuration values comes to.
pub open spec fn spec_configure(module: Seq<char>, values: Map<Seq<char>, Seq<char>>) -> Result<
    CallOutcomeView,
    LoggingErrorView,
> {
    if values.dom().contains(LOG_PATH_KEY@) {
        Ok(CallOutcomeView::Configure(module, values[LOG_PATH_KEY@]))
    } else {
        Err(LoggingErrorView::PathUnspecified)
    }
}

/// What a request to write a log line comes to, given the actors bound so far.
pub open spec fn spec_write_log(
    bound: Set<Seq<char>>,
    actor: Seq<char>,
    target: Seq<char>,
    level: Seq<char>,
    text: Seq<char>,
) -> Result<CallOutcomeView, LoggingErrorView> {
    match spec_level(level) {
        None => Err(LoggingErrorView::UnknownLevel(level)),
        Some(l) => if bound.contains(actor) {
            Ok(CallOutcomeView::Write(l, target, log_line(actor, text)))
        } else {
            Err(LoggingErrorView::LoggerNotFound(actor))
        },
    }
}

/// What a call comes to, given the actors bound so far.
pub open spec fn spec_handle_call(
    bound: Set<Seq<char>>,
    actor: Seq<char>,
    op: Seq<char>,
    msg: Seq<u8>,
) -> Result<CallOutcomeView, LoggingErrorView> {
    match spec_call_kind(op, actor) {
        CallKind::BindActor => match msgpack_capability_configuration(msg) {
            Ok((module, values)) => spec_configure(module, values),
            Err(e) => Err(LoggingErrorView::Codec(e)),
        },
        CallKind::RemoveActor => Ok(CallOutcomeView::Reply(Seq::empty())),
        CallKind::HealthRequest => Ok(CallOutcomeView::Reply(health_payload(true))),
        CallKind::WriteLog => match msgpack_write_log_args(msg) {
            Ok((target, level, text)) => spec_write_log(bound, actor, target, level, text),
            Err(e) => Err(LoggingErrorView::Codec(e)),
        },
        CallKind::Unknown => Err(LoggingErrorView::UnknownOperation(op)),
    }
}

/// The name by which an actor asks for a level.
pub open spec fn level_name(level: LogLevel) -> Seq<char> {
    match level {
        LogLevel::Error => "error"@,
        LogLevel::Warn => "warn"@,
        LogLevel::Info => "info"@,
        LogLevel::Debug => "debug"@,
        LogLevel::Trace => "trace"@,
    }
}

/// Whether a text is the name of one of the five levels.
pub open spec fn is_level_name(s: Seq<char>) -> bool {
    s == "error"@ || s == "warn"@ || s == "info"@ || s == "debug"@ || s == "trace"@
}

proof fn lemma_level_names_differ()
    ensures
        "error"@ != "warn"@,
        "error"@ != "info"@,
        "error"@ != "debug"@,
        "error"@ != "trace"@,
        "warn"@ != "info"@,
        "warn"@ != "debug"@,
        "warn"@ != "trace"@,
        "info"@ != "debug"@,
        "info"@ != "trace"@,
        "debug"@ != "trace"@,
{
    reveal_strlit("error");
    reveal_strlit("warn");
    reveal_strlit("info");
    reveal_strlit("debug");
    reveal_strlit("trace");
    assert("error"@[0] == 'e');
    assert("warn"@[0] == 'w');
    assert("info"@[0] == 'i');
    assert("debug"@[0] == 'd');
    assert("trace"@[0] == 't');
}

/// Every level is read from its own name, and only the five names are read
/// as levels: none is dropped or confused with another.
pub proof fn levels_are_read_by_name(level: LogLevel, s: Seq<char>)
    ensures
        spec_level(level_name(level)) == Some(level),
        spec_level(s) is Some <==> is_level_name(s),
        spec_level(s) is Some ==> level_name(spec_level(s)->0) == s,
{
    lemma_level_names_differ();
}

/// The written line is the actor in square brackets, a space, and then the
/// whole text: nothing of the text is cut or changed.
pub proof fn log_line_is_tagged_text(actor: Seq<char>, text: Seq<char>)
    ensures
        log_line(actor, text).len() == actor.len() + text.len() + 3,
        log_line(actor, text)[0] == '[',
        log_line(actor, text).subrange(1, actor.len() + 1 as int) == actor,
        log_line(actor, text)[actor.len() + 1 as int] == ']',
        log_line(actor, text)[actor.len() + 2 as int] == ' ',
        log_line(actor, text).skip(actor.len() + 3 as int) == text,
{
    reveal_strlit("[");
    reveal_strlit("] ");
    let line = log_line(actor, text);
    assert(line.subrange(1, actor.len() + 1 as int) =~= actor);
    assert(line.skip(actor.len() + 3 as int) =~= text);
}

/// A request to write a log line, from an actor that was bound, at one of the
/// five levels, is always written: to that actor's logger, at the level it
/// names, with its target, and with the whole text tagged with the actor.
pub proof fn bound_actor_writes_every_level(
    bound: Set<Seq<char>>,
    actor: Seq<char>,
    target: Seq<char>,
    level: Seq<char>,
    text: Seq<char>,
)
    requires
        bound.contains(actor),
        is_level_name(level),
    ensures
        spec_write_log(bound, actor, target, level, text) matches Ok(
            CallOutcomeView::Write(l, t, line),
        ) && level_name(l) == level && t == target && line == "["@ + actor + "] "@ + text,
{
    lemma_level_names_differ();
}

proof fn lemma_operation_names_differ()
    ensures
        "WriteLog"@ != "BindActor"@,
        "WriteLog"@ != "RemoveActor"@,
        "WriteLog"@ != "HealthRequest"@,
        "BindActor"@ != "RemoveActor"@,
        "BindActor"@ != "HealthRequest"@,
        "RemoveActor"@ != "HealthRequest"@,
{
    reveal_strlit("WriteLog");
    reveal_strlit("BindActor");
    reveal_strlit("RemoveActor");
    reveal_strlit("HealthRequest");
    assert("WriteLog"@[0] == 'W');
    assert("BindActor"@[0] == 'B');
    assert("RemoveActor"@[0] == 'R');
    assert("HealthRequest"@[0] == 'H');
}

/// A `WriteLog` call is never answered with a bare reply or a binding: its
/// payload is decoded and, when that works, it comes to exactly what writing
/// that request from the calling actor comes to. In particular, a bound actor
/// gets its line written at each of the five levels.
pub proof fn write_log_call_is_write_request(
    bound: Set<Seq<char>>,
    actor: Seq<char>,
    msg: Seq<u8>,
)
    ensures
        !(spec_handle_call(bound, actor, "WriteLog"@, msg) matches Ok(CallOutcomeView::Reply(_))),
        !(spec_handle_call(bound, actor, "WriteLog"@, msg) matches Ok(
            CallOutcomeView::Configure(_, _),
        )),
        msgpack_write_log_args(msg) matches Ok((target, level, text)) ==> spec_handle_call(
            bound,
            actor,
            "WriteLog"@,
            msg,
        ) == spec_write_log(bound, actor, target, level, text),
        msgpack_write_log_args(msg) is Err ==> spec_handle_call(bound, actor, "WriteLog"@, msg)
            == Err::<CallOutcomeView, LoggingErrorView>(
            LoggingErrorView::Codec(msgpack_write_log_args(msg)->Err_0),
        ),
{
    lemma_operation_names_differ();
    lemma_level_names_differ();
}

/// Binding keeps the logger under the very module that was bound, with the
/// file that the configuration names; so the actor that was bound finds its
/// logger when it writes.
pub proof fn configured_module_finds_its_logger(
    bound: Set<Seq<char>>,
    module: Seq<char>,
    values: Map<Seq<char>, Seq<char>>,
    target: Seq<char>,
    level: Seq<char>,
    text: Seq<char>,
)
    requires
        values.dom().contains("LOG_PATH"@),
        is_level_name(level),
    ensures
        spec_configure(module, values) matches Ok(CallOutcomeView::Configure(m, path)) && m
            == module && path == values["LOG_PATH"@] && spec_write_log(
            bound.insert(m),
            module,
            target,
            level,
            text,
        ) matches Ok(CallOutcomeView::Write(_, _, _)),
{
    lemma_level_names_differ();
}

/// A binding without a log file is refused, whatever the module.
pub proof fn binding_needs_a_log_path(module: Seq<char>, values: Map<Seq<char>, Seq<char>>)
    requires
        !values.dom().contains("LOG_PATH"@),
    ensures
        spec_configure(module, values) == Err::<CallOutcomeView, LoggingErrorView>(
            LoggingErrorView::PathUnspecified,
        ),
{
}

/// Once an actor is bound, each of its log lines at one of the five levels is
/// written to its own logger, tagged with its name.
pub proof fn bound_actor_logs(
    bound: Set<Seq<char>>,
    actor: Seq<char>,
    target: Seq<char>,
    level: Seq<char>,
    text: Seq<char>,
)
    requires
        spec_level(level) is Some,
    ensures
        spec_write_log(bound.insert(actor), actor, target, level, text) == Ok::<
            CallOutcomeView,
            LoggingErrorView,
        >(CallOutcomeView::Write(spec_level(level)->0, target, log_line(actor, text))),
{
}

/// An actor that was never bound cannot write a log line.
pub proof fn unbound_actor_cannot_log(
    bound: Set<Seq<char>>,
    actor: Seq<char>,
    target: Seq<char>,
    level: Seq<char>,
    text: Seq<char>,
)
    requires
        !bound.contains(actor),
        spec_level(level) is Some,
    ensures
        spec_write_log(bound, actor, target, level, text) == Err::<
            CallOutcomeView,
            LoggingErrorView,
        >(LoggingErrorView::LoggerNotFound(actor)),
{
}

/// Log outputs are separate: binding one actor leaves what every other
/// actor's log lines come to as it was.
pub proof fn binding_is_per_actor(
    bound: Set<Seq<char>>,
    other: Seq<char>,
    actor: Seq<char>,
    target: Seq<char>,
    level: Seq<char>,
    text: Seq<char>,
)
    requires
        other != actor,
    ensures
        spec_write_log(bound.insert(other), actor, target, level, text) == spec_write_log(
            bound,
            actor,
            target,
            level,
            text,
        ),
{
}

/// The logging provider: one logger (of type `L`) per bound actor.
pub struct LoggingProvider<L> {
    output_map: Registry<L>,
}

impl<L> LoggingProvider<L> {
    /// The loggers, by actor.
    pub closed spec fn loggers(&self) -> Map<Seq<char>, L> {
        self.output_map@
    }

    /// The internal invariant.
    pub closed spec fn wf(&self) -> bool {
        self.output_map.wf()
    }

    /// A provider with no actor bound.
    pub fn new() -> (r: Self)
        ensures
            r.wf(),
            r.loggers() == Map::<Seq<char>, L>::empty(),
    {
        LoggingProvider { output_map: Registry::new() }
    }

    /// Keeps `logger` as the log output of `module`, in place of any earlier one.
    pub fn bind(&mut self, module: String, logger: L)
        requires
            old(self).wf(),
        ensures
            final(self).wf(),
            final(self).loggers() == old(self).loggers().insert(module@, logger),
    {
        self.output_map.insert(module, logger);
    }

    /// The logger of `actor`, if it was bound.
    pub fn logger(&self, actor: &str) -> (r: Option<&L>)
        requires
            self.wf(),
        ensures
            match r {
                Some(l) => self.loggers().dom().contains(actor@) && *l == self.loggers()[actor@],
                None => !self.loggers().dom().contains(actor@),
            },
    {
        self.output_map.get(actor)
    }

    /// Where the log of an actor that is being bound goes.
    pub fn configure(config: CapabilityConfig) -> (r: Result<CallOutcome, LoggingError>)
        requires
            config.values.wf(),
        ensures
            result_view(r) == spec_configure(config.module@, config.values.text()),
            config.values@.dom().contains("LOG_PATH"@) ==> (r matches Ok(
                CallOutcome::Configure { module, path },
            ) && module@ == config.module@ && path@ == config.values@["LOG_PATH"@]@),
            !config.values@.dom().contains("LOG_PATH"@) ==> r matches Err(
                LoggingError::PathUnspecified,
            ),
    {
        match config.values.get(LOG_PATH_KEY) {
            Some(path) => Ok(CallOutcome::Configure { module: config.module, path: path.clone() }),
            None => Err(LoggingError::PathUnspecified),
        }
    }

    /// What a request from `actor` to write a log line comes to.
    pub fn write_log(&self, actor: &str, request: LogRequest) -> (r: Result<
        CallOutcome,
        LoggingError,
    >)
        requires
            self.wf(),
        ensures
            result_view(r) == spec_write_log(
                self.loggers().dom(),
                actor@,
                request.target@,
                request.level@,
                request.text@,
            ),
            self.loggers().dom().contains(actor@) && is_level_name(request.level@) ==> (r matches Ok(
                CallOutcome::Write { entry },
            ) && level_name(entry.level) == request.level@ && entry.target@ == request.target@
                && entry.line@ == "["@ + actor@ + "] "@ + request.text@),
            !is_level_name(request.level@) ==> r matches Err(LoggingError::UnknownLevel { .. }),
    {
        proof {
            lemma_level_names_differ();
        }
        let level = match parse_level(request.level.as_str()) {
            Ok(l) => l,
            Err(e) => {
                return Err(e);
            },
        };
        if !self.output_map.contains_key(actor) {
            return Err(LoggingError::LoggerNotFound { actor: String::from_str(actor) });
        }
        let line = String::from_str("[").concat(actor).concat("] ").concat(request.text.as_str());
        Ok(CallOutcome::Write { entry: LogEntry { level, target: request.target, line } })
    }

    /// What a call from the host or an actor comes to.
    pub fn handle_call(&self, actor: &str, op: &str, msg: &[u8]) -> (r: Result<
        CallOutcome,
        LoggingError,
    >)
        requires
            self.wf(),
        ensures
            result_view(r) == spec_handle_call(self.loggers().dom(), actor@, op@, msg@),
            op@ == "WriteLog"@ ==> !(r matches Ok(CallOutcome::Reply { .. })) && !(r matches Ok(
                CallOutcome::Configure { .. },
            )),
            ({
                let decoded = msgpack_write_log_args(msg@);
                op@ == "WriteLog"@ && decoded is Ok && self.loggers().dom().contains(actor@)
                    && is_level_name(decoded->Ok_0.1) ==> (r matches Ok(
                    CallOutcome::Write { entry },
                ) && level_name(entry.level) == decoded->Ok_0.1 && entry.target@
                    == decoded->Ok_0.0 && entry.line@ == "["@ + actor@ + "] "@ + decoded->Ok_0.2)
            }),
            ({
                let decoded = msgpack_capability_configuration(msg@);
                op@ == "BindActor"@ && actor@ == "system"@ && decoded is Ok
                    && decoded->Ok_0.1.dom().contains("LOG_PATH"@) ==> (r matches Ok(
                    CallOutcome::Configure { module, path },
                ) && module@ == decoded->Ok_0.0 && path@ == decoded->Ok_0.1["LOG_PATH"@])
            }),
            op@ == "RemoveActor"@ && actor@ == "system"@ ==> (r matches Ok(
                CallOutcome::Reply { payload },
            ) && payload@.len() == 0),
            op@ == "HealthRequest"@ && actor@ == "system"@ ==> (r matches Ok(
                CallOutcome::Reply { payload },
            ) && payload@ == health_payload(true)),
            op@ != "BindActor"@ && op@ != "RemoveActor"@ && op@ != "HealthRequest"@ && op@
                != "WriteLog"@ ==> (r matches Err(LoggingError::UnknownOperation { op: o })
                && o@ == op@),
    {
        proof {
            lemma_operation_names_differ();
            lemma_level_names_differ();
        }
        match call_kind(op, actor) {
            CallKind::BindActor => match decode_capability_configuration(msg) {
                Ok((module, values)) => {
                    let values = Registry::from_pairs(values);
                    Self::configure(CapabilityConfig { module, values })
                },
                Err(message) => Err(LoggingError::Codec { message }),
            },
            CallKind::RemoveActor => Ok(CallOutcome::Reply { payload: Vec::new() }),
            CallKind::HealthRequest => match encode_health_check_response(true, String::new()) {
                Ok(payload) => Ok(CallOutcome::Reply { payload }),
                Err(message) => Err(LoggingError::Codec { message }),
            },
            CallKind::WriteLog => match decode_write_log_args(msg) {
                Ok((target, level, text)) => self.write_log(actor, LogRequest { target, level, text }),
                Err(message) => Err(LoggingError::Codec { message }),
            },
            CallKind::Unknown => Err(LoggingError::UnknownOperation { op: String::from_str(op) }),
        }
    }
}

} // verus!
