//! Structured log records and the builder that checks them.

use vstd::prelude::*;
use vstd::string::*;

use crate::clock::{is_rfc3339_utc, now_rfc3339};
use crate::string_map::StrMap;

verus! {

/// The error a log operation reports, with a readable message.
#[derive(Debug)]
pub struct LogError {
    pub message: String,
}

impl LogError {
    /// An error carrying `msg`.
    pub fn new(msg: &str) -> (r: LogError)
        ensures
            r.message@ == msg@,
    {
        LogError { message: String::from_str(msg) }
    }
}

impl Clone for LogError {
    fn clone(&self) -> (r: Self)
        ensures
            r.message@ == self.message@,
    {
        LogError { message: self.message.clone() }
    }
}

/// The kind of event a record describes.
#[derive(Clone, Copy, Debug, PartialEq, Eq, Structural, Hash)]
pub enum LogType {
    AppLog,
    RequestLog,
    RequestExternalLog,
    PIILog,
    UserAccessLog,
}

impl Default for LogType {
    fn default() -> (r: Self)
        ensures
            r == LogType::AppLog,
    {
        LogType::AppLog
    }
}

/// The severity of a record.
#[derive(Clone, Copy, Debug, PartialEq, Eq, Structural, Hash)]
pub enum LogLevel {
    Info,
    Warning,
    Error,
    Debug,
}

impl Default for LogLevel {
    fn default() -> (r: Self)
        ensures
            r == LogLevel::Info,
    {
        LogLevel::Info
    }
}

/// The model of an optional text.
pub open spec fn opt_text(o: Option<String>) -> Option<Seq<char>> {
    match o {
        Some(s) => Some(s@),
        None => None,
    }
}

/// The model of an optional map of texts.
pub open spec fn opt_text_map(o: Option<StrMap<String>>) -> Option<Map<Seq<char>, Seq<char>>> {
    match o {
        Some(m) => Some(m.text_view()),
        None => None,
    }
}

fn same_opt_text(a: &Option<String>, b: &Option<String>) -> (r: bool)
    ensures
        r == (opt_text(*a) == opt_text(*b)),
{
    match (a, b) {
        (Some(x), Some(y)) => *x == *y,
        (None, None) => true,
        _ => false,
    }
}

fn same_opt_map(a: &Option<StrMap<String>>, b: &Option<StrMap<String>>) -> (r: bool)
    ensures
        r == (opt_text_map(*a) == opt_text_map(*b)),
{
    match (a, b) {
        (Some(x), Some(y)) => x.same_text(y),
        (None, None) => true,
        _ => false,
    }
}

fn copy_opt_text(a: &Option<String>) -> (r: Option<String>)
    ensures
        opt_text(r) == opt_text(*a),
{
    match a {
        Some(s) => Some(s.clone()),
        None => None,
    }
}

fn copy_opt_map(a: &Option<StrMap<String>>) -> (r: Option<StrMap<String>>)
    ensures
        opt_text_map(r) == opt_text_map(*a),
{
    match a {
        Some(m) => Some(m.duplicate()),
        None => None,
    }
}

/// The model of a request record.
#[verifier::ext_equal]
pub struct RequestView {
    pub id: Seq<char>,
    pub method: Seq<char>,
    pub host: Seq<char>,
    pub uri: Seq<char>,
    pub headers: Map<Seq<char>, Seq<char>>,
    pub body: Option<Seq<char>>,
}

/// The HTTP request that a record describes. `body` holds the payload as
/// JSON text.
#[derive(Debug)]
pub struct RequestObj {
    pub id: String,
    pub method: String,
    pub host: String,
    pub uri: String,
    pub headers: StrMap<String>,
    pub body: Option<String>,
}

impl View for RequestObj {
    type V = RequestView;

    open spec fn view(&self) -> RequestView {
        RequestView {
            id: self.id@,
            method: self.method@,
            host: self.host@,
            uri: self.uri@,
            headers: self.headers.text_view(),
            body: opt_text(self.body),
        }
    }
}

impl RequestObj {
    /// Whether both requests hold the same data.
    pub fn same_as(&self, other: &Self) -> (r: bool)
        ensures
            r == (self@ == other@),
    {
        let r = self.id == other.id && self.method == other.method && self.host == other.host
            && self.uri == other.uri && self.headers.same_text(&other.headers)
            && same_opt_text(&self.body, &other.body);
        proof {
            if !r {
                if self@ == other@ {
                    assert(self@.headers == other@.headers);
                    assert(self@.body == other@.body);
                }
            }
        }
        r
    }
}

impl Clone for RequestObj {
    fn clone(&self) -> (r: Self)
        ensures
            r@ == self@,
    {
        let r = RequestObj {
            id: self.id.clone(),
            method: self.method.clone(),
            host: self.host.clone(),
            uri: self.uri.clone(),
            headers: self.headers.duplicate(),
            body: copy_opt_text(&self.body),
        };
        proof { assert(r@ =~= self@); }
        r
    }
}

impl Default for RequestObj {
    fn default() -> (r: Self)
        ensures
            r@ == (RequestView {
                id: Seq::empty(),
                method: Seq::empty(),
                host: Seq::empty(),
                uri: Seq::empty(),
                headers: Map::empty(),
                body: None,
            }),
    {
        let r = RequestObj {
            id: String::new(),
            method: String::new(),
            host: String::new(),
            uri: String::new(),
            headers: StrMap::new(),
            body: None,
        };
        proof { assert(r.headers.text_view() =~= Map::empty()); }
        r
    }
}

/// The model of a response record.
#[verifier::ext_equal]
pub struct ResponseView {
    pub status_code: Option<u16>,
    pub headers: Option<Map<Seq<char>, Seq<char>>>,
    pub body: Option<Seq<char>>,
}

/// The HTTP response that a record describes. `body` holds the payload as
/// JSON text.
#[derive(Debug)]
pub struct ResponseObj {
    pub status_code: Option<u16>,
    pub headers: Option<StrMap<String>>,
    pub body: Option<String>,
}

impl View for ResponseObj {
    type V = ResponseView;

    open spec fn view(&self) -> ResponseView {
        ResponseView {
            status_code: self.status_code,
            headers: opt_text_map(self.headers),
            body: opt_text(self.body),
        }
    }
}

impl ResponseObj {
    /// Whether both responses hold the same data.
    pub fn same_as(&self, other: &Self) -> (r: bool)
        ensures
            r == (self@ == other@),
    {
        let same_status = match (self.status_code, other.status_code) {
            (Some(x), Some(y)) => x == y,
            (None, None) => true,
            _ => false,
        };
        let r = same_status && same_opt_map(&self.headers, &other.headers)
            && same_opt_text(&self.body, &other.body);
        proof {
            if !r {
                if self@ == other@ {
                    assert(self@.headers == other@.headers);
                    assert(self@.body == other@.body);
                }
            }
        }
        r
    }
}

impl Clone for ResponseObj {
    fn clone(&self) -> (r: Self)
        ensures
            r@ == self@,
    {
        let r = ResponseObj {
            status_code: self.status_code,
            headers: copy_opt_map(&self.headers),
            body: copy_opt_text(&self.body),
        };
        proof { assert(r@ =~= self@); }
        r
    }
}

impl Default for ResponseObj {
    fn default() -> (r: Self)
        ensures
            r@ == (ResponseView { status_code: None, headers: None, body: None }),
    {
        ResponseObj { status_code: None, headers: None, body: None }
    }
}

/// The model of an optional request.
pub open spec fn opt_request(o: Option<RequestObj>) -> Option<RequestView> {
    match o {
        Some(q) => Some(q@),
        None => None,
    }
}

/// The model of an optional response.
pub open spec fn opt_response(o: Option<ResponseObj>) -> Option<ResponseView> {
    match o {
        Some(q) => Some(q@),
        None => None,
    }
}

/// The model of a log record.
#[verifier::ext_equal]
pub struct LogMessageView {
    pub event_date_time: Seq<char>,
    pub log_type: LogType,
    pub log_level: LogLevel,
    pub app_id: Option<Seq<char>>,
    pub app_version: Option<Seq<char>>,
    pub app_address: Option<Seq<char>>,
    pub service_name: Option<Seq<char>>,
    pub service_version: Option<Seq<char>>,
    pub code_location: Option<Seq<char>>,
    pub caller_channel_name: Option<Seq<char>>,
    pub caller_user: Option<Seq<char>>,
    pub correlation_id: Seq<char>,
    pub relation_id: Option<Seq<char>>,
    pub execution_time: Option<u64>,
    pub message: Seq<char>,
    pub request: Option<RequestView>,
    pub response: Option<ResponseView>,
    pub extra_fields: Option<Map<Seq<char>, Seq<char>>>,
}

impl LogMessageView {
    /// A record with the given time stamp, kind, severity, message and
    /// correlation id, and every optional part absent.
    pub open spec fn fresh(
        event_date_time: Seq<char>,
        log_type: LogType,
        log_level: LogLevel,
        message: Seq<char>,
        correlation_id: Seq<char>,
    ) -> LogMessageView {
        LogMessageView {
            event_date_time,
            log_type,
            log_level,
            app_id: None,
            app_version: None,
            app_address: None,
            service_name: None,
            service_version: None,
            code_location: None,
            caller_channel_name: None,
            caller_user: None,
            correlation_id,
            relation_id: None,
            execution_time: None,
            message,
            request: None,
            response: None,
            extra_fields: None,
        }
    }

    /// Whether a record of this kind must carry the request and the
    /// response it describes.
    pub open spec fn needs_exchange(self) -> bool {
        self.log_type == LogType::RequestLog || self.log_type == LogType::RequestExternalLog
    }

    /// The message of the error that building this record reports, or
    /// `None` when the record is complete.
    pub open spec fn build_error(self) -> Option<Seq<char>> {
        if self.needs_exchange() && self.request is None {
            Some("Request object is missing"@)
        } else if self.needs_exchange() && self.response is None {
            Some("Response object is missing"@)
        } else {
            None
        }
    }

    /// The record with `value` stored under `key` among its extra fields,
    /// which are created empty when absent.
    pub open spec fn with_extra_field(self, key: Seq<char>, value: Seq<char>) -> LogMessageView {
        let fields = match self.extra_fields {
            Some(m) => m,
            None => Map::empty(),
        };
        LogMessageView { extra_fields: Some(fields.insert(key, value)), ..self }
    }
}

/// A structured log record.
#[derive(Debug)]
pub struct LogMessage {
    pub event_date_time: String,
    pub log_type: LogType,
    pub log_level: LogLevel,
    pub app_id: Option<String>,
    pub app_version: Option<String>,
    pub app_address: Option<String>,
    pub service_name: Option<String>,
    pub service_version: Option<String>,
    pub code_location: Option<String>,
    pub caller_channel_name: Option<String>,
    pub caller_user: Option<String>,
    pub correlation_id: String,
    pub relation_id: Option<String>,
    pub execution_time: Option<u64>,
    pub message: String,
    pub request: Option<RequestObj>,
    pub response: Option<ResponseObj>,
    pub extra_fields: Option<StrMap<String>>,
}

impl View for LogMessage {
    type V = LogMessageView;

    open spec fn view(&self) -> LogMessageView {
        LogMessageView {
            event_date_time: self.event_date_time@,
            log_type: self.log_type,
            log_level: self.log_level,
            app_id: opt_text(self.app_id),
            app_version: opt_text(self.app_version),
            app_address: opt_text(self.app_address),
            service_name: opt_text(self.service_name),
            service_version: opt_text(self.service_version),
            code_location: opt_text(self.code_location),
            caller_channel_name: opt_text(self.caller_channel_name),
            caller_user: opt_text(self.caller_user),
            correlation_id: self.correlation_id@,
            relation_id: opt_text(self.relation_id),
            execution_time: self.execution_time,
            message: self.message@,
            request: opt_request(self.request),
            response: opt_response(self.response),
            extra_fields: opt_text_map(self.extra_fields),
        }
    }
}

fn same_opt_request(a: &Option<RequestObj>, b: &Option<RequestObj>) -> (r: bool)
    ensures
        r == (opt_request(*a) == opt_request(*b)),
{
    match (a, b) {
        (Some(x), Some(y)) => x.same_as(y),
        (None, None) => true,
        _ => false,
    }
}

fn same_opt_response(a: &Option<ResponseObj>, b: &Option<ResponseObj>) -> (r: bool)
    ensures
        r == (opt_response(*a) == opt_response(*b)),
{
    match (a, b) {
        (Some(x), Some(y)) => x.same_as(y),
        (None, None) => true,
        _ => false,
    }
}

impl LogMessage {
    /// A record of the given kind, severity, message and correlation id,
    /// stamped with the given time and with every optional part absent.
    pub fn stamped(
        event_date_time: String,
        log_type: LogType,
        log_level: LogLevel,
        message: &str,
        correlation_id: &str,
    ) -> (r: Self)
        ensures
            r@ == LogMessageView::fresh(
                event_date_time@,
                log_type,
                log_level,
                message@,
                correlation_id@,
            ),
    {
        LogMessage {
            event_date_time,
            log_type,
            log_level,
            app_id: None,
            app_version: None,
            app_address: None,
            service_name: None,
            service_version: None,
            code_location: None,
            caller_channel_name: None,
            caller_user: None,
            correlation_id: String::from_str(correlation_id),
            relation_id: None,
            execution_time: None,
            message: String::from_str(message),
            request: None,
            response: None,
            extra_fields: None,
        }
    }

    /// A record of the given kind, severity, message and correlation id,
    /// stamped with the current time (RFC 3339) and with every optional
    /// part absent.
    pub fn new(log_type: LogType, log_level: LogLevel, message: &str, correlation_id: &str) -> (r: Self)
        ensures
            is_rfc3339_utc(r@.event_date_time),
            r@ == LogMessageView::fresh(
                r@.event_date_time,
                log_type,
                log_level,
                message@,
                correlation_id@,
            ),
    {
        Self::stamped(now_rfc3339(), log_type, log_level, message, correlation_id)
    }

    /// Whether both records hold the same data.
    pub fn same_as(&self, other: &Self) -> (r: bool)
        ensures
            r == (self@ == other@),
    {
        let r = self.event_date_time == other.event_date_time
            && self.log_type == other.log_type
            && self.log_level == other.log_level
            && same_opt_text(&self.app_id, &other.app_id)
            && same_opt_text(&self.app_version, &other.app_version)
            && same_opt_text(&self.app_address, &other.app_address)
            && same_opt_text(&self.service_name, &other.service_name)
            && same_opt_text(&self.service_version, &other.service_version)
            && same_opt_text(&self.code_location, &other.code_location)
            && same_opt_text(&self.caller_channel_name, &other.caller_channel_name)
            && same_opt_text(&self.caller_user, &other.caller_user)
            && self.correlation_id == other.correlation_id
            && same_opt_text(&self.relation_id, &other.relation_id)
            && self.execution_time == other.execution_time
            && self.message == other.message
            && same_opt_request(&self.request, &other.request)
            && same_opt_response(&self.response, &other.response)
            && same_opt_map(&self.extra_fields, &other.extra_fields);
        proof {
            if !r && self@ == other@ {
                assert(self@.app_id == other@.app_id);
                assert(self@.app_version == other@.app_version);
                assert(self@.app_address == other@.app_address);
                assert(self@.service_name == other@.service_name);
                assert(self@.service_version == other@.service_version);
                assert(self@.code_location == other@.code_location);
                assert(self@.caller_channel_name == other@.caller_channel_name);
                assert(self@.caller_user == other@.caller_user);
                assert(self@.relation_id == other@.relation_id);
                assert(self@.request == other@.request);
                assert(self@.response == other@.response);
                assert(self@.extra_fields == other@.extra_fields);
            }
        }
        r
    }
}

impl Clone for LogMessage {
    fn clone(&self) -> (r: Self)
        ensures
            r@ == self@,
    {
        let request = match &self.request {
            Some(q) => Some(q.clone()),
            None => None,
        };
        let response = match &self.response {
            Some(q) => Some(q.clone()),
            None => None,
        };
        let r = LogMessage {
            event_date_time: self.event_date_time.clone(),
            log_type: self.log_type,
            log_level: self.log_level,
            app_id: copy_opt_text(&self.app_id),
            app_version: copy_opt_text(&self.app_version),
            app_address: copy_opt_text(&self.app_address),
            service_name: copy_opt_text(&self.service_name),
            service_version: copy_opt_text(&self.service_version),
            code_location: copy_opt_text(&self.code_location),
            caller_channel_name: copy_opt_text(&self.caller_channel_name),
            caller_user: copy_opt_text(&self.caller_user),
            correlation_id: self.correlation_id.clone(),
            relation_id: copy_opt_text(&self.relation_id),
            execution_time: self.execution_time,
            message: self.message.clone(),
            request,
            response,
            extra_fields: copy_opt_map(&self.extra_fields),
        };
        proof { assert(r@ =~= self@); }
        r
    }
}

/// Assembles a record step by step and checks it before handing it out.
pub struct LogBuilder {
    log: LogMessage,
}

impl View for LogBuilder {
    type V = LogMessageView;

    closed spec fn view(&self) -> LogMessageView {
        self.log@
    }
}

impl LogBuilder {
    /// A builder for a record of the given kind, severity, message and
    /// correlation id, stamped with the current time.
    pub fn new(log_type: LogType, log_level: LogLevel, message: &str, correlation_id: &str) -> (r: Self)
        ensures
            is_rfc3339_utc(r@.event_date_time),
            r@ == LogMessageView::fresh(
                r@.event_date_time,
                log_type,
                log_level,
                message@,
                correlation_id@,
            ),
    {
        LogBuilder { log: LogMessage::new(log_type, log_level, message, correlation_id) }
    }

    /// A builder that starts from the given record.
    pub fn from_message(log: LogMessage) -> (r: Self)
        ensures
            r@ == log@,
    {
        LogBuilder { log }
    }

    /// Sets the record's kind.
    pub fn log_type(self, log_type: LogType) -> (r: Self)
        ensures
            r@ == (LogMessageView { log_type, ..self@ }),
    {
        let mut b = self;
        b.log.log_type = log_type;
        b
    }

    /// Sets the record's severity.
    pub fn log_level(self, log_level: LogLevel) -> (r: Self)
        ensures
            r@ == (LogMessageView { log_level, ..self@ }),
    {
        let mut b = self;
        b.log.log_level = log_level;
        b
    }

    /// Sets the record's message.
    pub fn message(self, message: String) -> (r: Self)
        ensures
            r@ == (LogMessageView { message: message@, ..self@ }),
    {
        let mut b = self;
        b.log.message = message;
        b
    }

    /// Sets where in the code the record comes from.
    pub fn code_location(self, location: String) -> (r: Self)
        ensures
            r@ == (LogMessageView { code_location: Some(location@), ..self@ }),
    {
        let mut b = self;
        b.log.code_location = Some(location);
        b
    }

    /// Attaches the request the record describes.
    pub fn request(self, request: RequestObj) -> (r: Self)
        ensures
            r@ == (LogMessageView { request: Some(request@), ..self@ }),
    {
        let mut b = self;
        b.log.request = Some(request);
        b
    }

    /// Attaches the response the record describes.
    pub fn response(self, response: ResponseObj) -> (r: Self)
        ensures
            r@ == (LogMessageView { response: Some(response@), ..self@ }),
    {
        let mut b = self;
        b.log.response = Some(response);
        b
    }

    /// Stores `value` under `key` among the record's extra fields,
    /// creating them when absent and replacing an earlier value of `key`.
    pub fn add_extra_field(self, key: String, value: String) -> (r: Self)
        ensures
            r@ == self@.with_extra_field(key@, value@),
    {
        let ghost old_view = self@;
        let mut b = self;
        let mut fields = match b.log.extra_fields.take() {
            Some(m) => m,
            None => StrMap::new(),
        };
        let ghost before = fields.text_view();
        let ghost kv = key@;
        let ghost vv = value@;
        fields.insert(key, value);
        proof {
            assert(fields.text_view() =~= before.insert(kv, vv));
        }
        b.log.extra_fields = Some(fields);
        proof {
            assert(b@ =~= old_view.with_extra_field(kv, vv));
        }
        b
    }

    /// Checks the record and returns a copy of it. A request record
    /// (`RequestLog` or `RequestExternalLog`) must carry its request and
    /// its response; a missing request is reported first.
    pub fn build(&self) -> (r: Result<LogMessage, LogError>)
        ensures
            match r {
                Ok(log) => self@.build_error() is None && log@ == self@,
                Err(e) => self@.build_error() == Some(e.message@),
            },
    {
        let log = self.log.clone();
        if log.log_type == LogType::RequestLog || log.log_type == LogType::RequestExternalLog {
            if log.request.is_none() {
                return Err(LogError::new("Request object is missing"));
            }
            if log.response.is_none() {
                return Err(LogError::new("Response object is missing"));
            }
        }
        Ok(log)
    }
}

impl PartialEq for LogMessage {
    fn eq(&self, other: &Self) -> (r: bool) {
        self.same_as(other)
    }
}

impl vstd::std_specs::cmp::PartialEqSpecImpl for LogMessage {
    open spec fn obeys_eq_spec() -> bool {
        true
    }

    open spec fn eq_spec(&self, other: &Self) -> bool {
        self@ == other@
    }
}

impl PartialEq for RequestObj {
    fn eq(&self, other: &Self) -> (r: bool) {
        self.same_as(other)
    }
}

impl vstd::std_specs::cmp::PartialEqSpecImpl for RequestObj {
    open spec fn obeys_eq_spec() -> bool {
        true
    }

    open spec fn eq_spec(&self, other: &Self) -> bool {
        self@ == other@
    }
}

impl PartialEq for ResponseObj {
    fn eq(&self, other: &Self) -> (r: bool) {
        self.same_as(other)
    }
}

impl vstd::std_specs::cmp::PartialEqSpecImpl for ResponseObj {
    open spec fn obeys_eq_spec() -> bool {
        true
    }

    open spec fn eq_spec(&self, other: &Self) -> bool {
        self@ == other@
    }
}

impl PartialEq for LogError {
    fn eq(&self, other: &Self) -> (r: bool) {
        self.message == other.message
    }
}

impl vstd::std_specs::cmp::PartialEqSpecImpl for LogError {
    open spec fn obeys_eq_spec() -> bool {
        true
    }

    open spec fn eq_spec(&self, other: &Self) -> bool {
        self.message@ == other.message@
    }
}

impl Default for LogError {
    fn default() -> (r: Self)
        ensures
            r.message@ == Seq::<char>::empty(),
    {
        LogError { message: String::new() }
    }
}

impl Default for LogMessage {
    fn default() -> (r: Self)
        ensures
            r@ == LogMessageView::fresh(
                Seq::empty(),
                LogType::AppLog,
                LogLevel::Info,
                Seq::empty(),
                Seq::empty(),
            ),
    {
        LogMessage {
            event_date_time: String::new(),
            log_type: LogType::AppLog,
            log_level: LogLevel::Info,
            app_id: None,
            app_version: None,
            app_address: None,
            service_name: None,
            service_version: None,
            code_location: None,
            caller_channel_name: None,
            caller_user: None,
            correlation_id: String::new(),
            relation_id: None,
            execution_time: None,
            message: String::new(),
            request: None,
            response: None,
            extra_fields: None,
        }
    }
}

impl Default for LogBuilder {
    fn default() -> (r: Self)
        ensures
            r@ == LogMessageView::fresh(
                Seq::empty(),
                LogType::AppLog,
                LogLevel::Info,
                Seq::empty(),
                Seq::empty(),
            ),
    {
        LogBuilder { log: LogMessage::default() }
    }
}

} // verus!
