//! HTTP profiles of configurable providers: profile validation, credential placement,
//! status and transport-failure classification, and response header lookup.

use vstd::prelude::*;

use super::contract::{OperationOutcome, ReplaySafety};
use super::error::{
    cancelled_error, configuration_error, provider_error, ProviderError, ProviderErrorCategory,
    ProviderErrorV,
};
use super::retry::{retry_policy_problem, RetryPolicy};
use crate::config::{hex_encode, hex_lower, opt_text, sha256, sha256_digest, unsigned_value};
use crate::endpoint::{summarize_url, url_summary};
use crate::text::{
    ascii_lower_seq, chars_of, contains, is_blank, str_eq, str_is_blank, trim, trim_str,
};

verus! {

/// The largest response size a profile may allow.
pub const MAX_RESPONSE_LIMIT_BYTES: u64 = 134217728;

/// The longest timeout a profile may set, in milliseconds.
pub const MAX_TIMEOUT_MS: u64 = 86400000;

/// Where an adapter places the credential.
pub enum ProviderCredentialPlacement {
    NoCredential,
    Bearer,
    Header { header_name: String, prefix: Option<String> },
}

/// Supported HTTP methods of configurable requests.
#[derive(Debug, Clone, Copy, PartialEq, Eq, Structural)]
pub enum HttpMethod {
    Get,
    Post,
}

/// Non-secret HTTP settings of one provider adapter.
pub struct ProviderHttpConfig {
    pub provider_id: String,
    pub adapter_id: String,
    pub adapter_version: String,
    pub endpoint: String,
    pub model: String,
    pub auth: ProviderCredentialPlacement,
    pub connect_timeout_ms: u64,
    pub request_timeout_ms: u64,
    pub overall_timeout_ms: u64,
    pub max_response_bytes: u64,
    pub max_concurrent: usize,
    pub min_request_interval_ms: u64,
    pub retry: RetryPolicy,
    pub replay_safety: ReplaySafety,
    pub idempotency_header: Option<String>,
    pub allow_insecure_loopback: bool,
}

/// Whether HTTP accepts a header name (the `http` crate's `HeaderName::from_bytes`).
pub uninterp spec fn header_name_accepted(name: Seq<u8>) -> bool;

/// Checks a header name with `reqwest::header::HeaderName::from_bytes`; the answer is
/// the named acceptance of the name's bytes.
#[verifier::external_body]
pub(crate) fn header_name_parses(name: &[u8]) -> (r: bool)
    ensures
        r == header_name_accepted(name@),
{
    reqwest::header::HeaderName::from_bytes(name).is_ok()
}

/// Headers the transport controls itself.
pub open spec fn transport_header(lower: Seq<char>) -> bool {
    lower == "host"@ || lower == "content-length"@ || lower == "transfer-encoding"@ || lower
        == "connection"@ || lower == "cookie"@
}

/// The problem of a configurable header name, if any.
pub open spec fn header_name_problem(name: Seq<char>) -> Option<Seq<char>> {
    if !header_name_accepted(vstd::utf8::encode_utf8(name)) {
        Some("Provider Header 名称无效"@)
    } else if transport_header(ascii_lower_seq(name)) {
        Some("Provider Header 名称不允许由适配器设置"@)
    } else {
        None
    }
}

/// The ASCII lower-case form of a string.
pub(crate) fn ascii_lowercase(s: &str) -> (r: String)
    ensures
        r@ == ascii_lower_seq(s@),
{
    let v = chars_of(s);
    let mut out: Vec<char> = Vec::new();
    let mut i: usize = 0;
    while i < v.len()
        invariant
            0 <= i <= v@.len(),
            out@ == ascii_lower_seq(v@.take(i as int)),
        decreases v@.len() - i,
    {
        out.push(crate::text::ascii_lower_char(v[i]));
        i = i + 1;
        proof {
            assert(ascii_lower_seq(v@.take(i as int)) =~= ascii_lower_seq(v@.take((i - 1) as int)).push(
                crate::text::ascii_lower(v@[i - 1]),
            ));
        }
    }
    proof {
        assert(v@.take(v@.len() as int) =~= v@);
    }
    crate::text::string_from_chars(out.as_slice())
}

/// Checks a header name and blocks transport-controlled headers.
pub fn validate_header_name(name: &str, code: &str) -> (r: Result<(), ProviderError>)
    ensures
        match header_name_problem(name@) {
            Some(m) => r is Err && r->Err_0@ == configuration_error(code@, m),
            None => r is Ok,
        },
{
    if !header_name_parses(name.as_bytes()) {
        return Err(ProviderError::configuration(code, "Provider Header 名称无效"));
    }
    let l = ascii_lowercase(name);
    let ls = l.as_str();
    if str_eq(ls, "host") || str_eq(ls, "content-length") || str_eq(ls, "transfer-encoding")
        || str_eq(ls, "connection") || str_eq(ls, "cookie") {
        return Err(ProviderError::configuration(code, "Provider Header 名称不允许由适配器设置"));
    }
    Ok(())
}

/// Whether a header carries a credential and so may only be set by the transport.
pub fn is_sensitive_managed_header(name: &str) -> (r: bool)
    ensures
        r == ({
            let l = ascii_lower_seq(name@);
            l == "authorization"@ || l == "cookie"@ || l == "x-api-key"@ || l == "x-api-access-key"@
        }),
{
    let l = ascii_lowercase(name);
    let ls = l.as_str();
    str_eq(ls, "authorization") || str_eq(ls, "cookie") || str_eq(ls, "x-api-key") || str_eq(
        ls,
        "x-api-access-key",
    )
}

/// The problem of a timeout, if any: it must be positive and at most a day.
pub open spec fn timeout_problem(timeout_ms: u64) -> bool {
    timeout_ms == 0 || timeout_ms > MAX_TIMEOUT_MS
}

/// Checks that a timeout is positive and at most a day.
pub fn validate_timeout(timeout_ms: u64) -> (r: Result<(), ProviderError>)
    ensures
        r is Ok <==> !timeout_problem(timeout_ms),
        r matches Err(e) ==> e@ == configuration_error("invalid_timeout"@, "Provider 超时时间无效"@),
{
    if timeout_ms == 0 || timeout_ms > MAX_TIMEOUT_MS {
        return Err(ProviderError::configuration("invalid_timeout", "Provider 超时时间无效"));
    }
    Ok(())
}

/// The view of a credential placement.
pub enum PlacementV {
    NoCredential,
    Bearer,
    Header { header_name: Seq<char>, prefix: Option<Seq<char>> },
}

impl View for ProviderCredentialPlacement {
    type V = PlacementV;

    open spec fn view(&self) -> PlacementV {
        match self {
            ProviderCredentialPlacement::NoCredential => PlacementV::NoCredential,
            ProviderCredentialPlacement::Bearer => PlacementV::Bearer,
            ProviderCredentialPlacement::Header { header_name, prefix } => PlacementV::Header {
                header_name: header_name@,
                prefix: opt_text(*prefix),
            },
        }
    }
}

/// The error of a credential placement, if any: a custom header needs a valid name and a
/// prefix without line breaks.
pub open spec fn placement_error(auth: PlacementV) -> Option<ProviderErrorV> {
    match auth {
        PlacementV::Header { header_name, prefix } => match header_name_problem(header_name) {
            Some(m) => Some(configuration_error("invalid_auth_header"@, m)),
            None => match prefix {
                Some(p) => if contains(p, seq!['\r']) || contains(p, seq!['\n']) {
                    Some(configuration_error("invalid_auth_prefix"@, "认证前缀包含非法字符"@))
                } else {
                    None
                },
                None => None,
            },
        },
        _ => None,
    }
}

/// Checks the credential placement without reading any secret.
pub fn validate_auth_strategy(auth: &ProviderCredentialPlacement) -> (r: Result<(), ProviderError>)
    ensures
        match placement_error(auth@) {
            Some(e) => r is Err && r->Err_0@ == e,
            None => r is Ok,
        },
{
    match auth {
        ProviderCredentialPlacement::Header { header_name, prefix } => {
            validate_header_name(header_name.as_str(), "invalid_auth_header")?;
            match prefix {
                Some(p) => {
                    let cr: [char; 1] = ['\r'];
                    let lf: [char; 1] = ['\n'];
                    let pv = chars_of(p.as_str());
                    proof {
                        assert(cr@ =~= seq!['\r']);
                        assert(lf@ =~= seq!['\n']);
                    }
                    if crate::text::contains_chars(pv.as_slice(), cr.as_slice())
                        || crate::text::contains_chars(pv.as_slice(), lf.as_slice()) {
                        return Err(ProviderError::configuration("invalid_auth_prefix", "认证前缀包含非法字符"));
                    }
                },
                None => {},
            }
            Ok(())
        },
        _ => Ok(()),
    }
}

/// The view of an HTTP profile.
pub struct HttpConfigV {
    pub provider_id: Seq<char>,
    pub adapter_id: Seq<char>,
    pub adapter_version: Seq<char>,
    pub endpoint: Seq<char>,
    pub model: Seq<char>,
    pub auth: PlacementV,
    pub connect_timeout_ms: u64,
    pub request_timeout_ms: u64,
    pub overall_timeout_ms: u64,
    pub max_response_bytes: u64,
    pub max_concurrent: usize,
    pub retry: RetryPolicy,
    pub replay_safety: ReplaySafety,
    pub idempotency_header: Option<Seq<char>>,
    pub allow_insecure_loopback: bool,
    pub min_request_interval_ms: u64,
}

impl View for ProviderHttpConfig {
    type V = HttpConfigV;

    open spec fn view(&self) -> HttpConfigV {
        HttpConfigV {
            provider_id: self.provider_id@,
            adapter_id: self.adapter_id@,
            adapter_version: self.adapter_version@,
            endpoint: self.endpoint@,
            model: self.model@,
            auth: self.auth@,
            connect_timeout_ms: self.connect_timeout_ms,
            request_timeout_ms: self.request_timeout_ms,
            overall_timeout_ms: self.overall_timeout_ms,
            max_response_bytes: self.max_response_bytes,
            max_concurrent: self.max_concurrent,
            retry: self.retry,
            replay_safety: self.replay_safety,
            idempotency_header: opt_text(self.idempotency_header),
            allow_insecure_loopback: self.allow_insecure_loopback,
            min_request_interval_ms: self.min_request_interval_ms,
        }
    }
}

/// The first error of an HTTP profile, if any: identity fields, timeouts, retry policy,
/// response and concurrency limits, credential placement, idempotency header, and an
/// endpoint that is HTTPS (or allowed loopback HTTP) without credentials, query or fragment.
pub open spec fn http_config_error(c: HttpConfigV) -> Option<ProviderErrorV> {
    if is_blank(c.provider_id) || is_blank(c.adapter_id) || is_blank(c.adapter_version) || is_blank(
        c.model,
    ) {
        Some(
            configuration_error(
                "invalid_provider_config"@,
                "Provider 标识、适配器版本和模型不能为空"@,
            ),
        )
    } else if timeout_problem(c.connect_timeout_ms) || timeout_problem(c.request_timeout_ms)
        || timeout_problem(c.overall_timeout_ms) {
        Some(configuration_error("invalid_timeout"@, "Provider 超时时间无效"@))
    } else if retry_policy_problem(c.retry) is Some {
        Some(configuration_error("invalid_retry_policy"@, retry_policy_problem(c.retry)->Some_0))
    } else if c.max_response_bytes == 0 || c.max_response_bytes > MAX_RESPONSE_LIMIT_BYTES {
        Some(configuration_error("invalid_response_limit"@, "响应大小上限无效"@))
    } else if c.max_concurrent == 0 || c.max_concurrent > 16 {
        Some(configuration_error("invalid_concurrency_limit"@, "Provider 并发数必须在 1 到 16 之间"@))
    } else if placement_error(c.auth) is Some {
        placement_error(c.auth)
    } else if c.idempotency_header is Some && header_name_problem(c.idempotency_header->Some_0) is Some {
        Some(
            configuration_error(
                "invalid_idempotency_header"@,
                header_name_problem(c.idempotency_header->Some_0)->Some_0,
            ),
        )
    } else if c.replay_safety == ReplaySafety::SafeWithVerifiedIdempotencyKey
        && c.idempotency_header is None {
        Some(
            configuration_error(
                "missing_idempotency_header"@,
                "幂等重放策略需要显式配置已验证的幂等 Header"@,
            ),
        )
    } else {
        match url_summary(c.endpoint) {
            None => Some(configuration_error("invalid_provider_endpoint"@, "Provider 地址无效"@)),
            Some(p) => if p.2 || p.3 {
                Some(
                    configuration_error(
                        "invalid_provider_endpoint"@,
                        "Provider 地址不得包含凭据、查询参数或片段"@,
                    ),
                )
            } else {
                let loopback = match p.1 {
                    Some(h) => h == "localhost"@ || h == "127.0.0.1"@ || h == "::1"@,
                    None => false,
                };
                if p.0 != "https"@ && !(c.allow_insecure_loopback && p.0 == "http"@ && loopback) {
                    Some(
                        configuration_error(
                            "insecure_provider_endpoint"@,
                            "生产 Provider 必须使用 HTTPS"@,
                        ),
                    )
                } else {
                    None
                }
            },
        }
    }
}

impl ProviderHttpConfig {
    /// Checks the non-secret profile without any network request and returns the
    /// parsed endpoint.
    pub fn validate(&self) -> (r: Result<reqwest::Url, ProviderError>)
        ensures
            match http_config_error(self@) {
                Some(e) => r is Err && r->Err_0@ == e,
                None => r is Ok,
            },
    {
        if str_is_blank(self.provider_id.as_str()) || str_is_blank(self.adapter_id.as_str())
            || str_is_blank(self.adapter_version.as_str()) || str_is_blank(self.model.as_str()) {
            return Err(
                ProviderError::configuration(
                    "invalid_provider_config",
                    "Provider 标识、适配器版本和模型不能为空",
                ),
            );
        }
        validate_timeout(self.connect_timeout_ms)?;
        validate_timeout(self.request_timeout_ms)?;
        validate_timeout(self.overall_timeout_ms)?;
        self.retry.validate()?;
        if self.max_response_bytes == 0 || self.max_response_bytes > MAX_RESPONSE_LIMIT_BYTES {
            return Err(ProviderError::configuration("invalid_response_limit", "响应大小上限无效"));
        }
        if self.max_concurrent == 0 || self.max_concurrent > 16 {
            return Err(
                ProviderError::configuration(
                    "invalid_concurrency_limit",
                    "Provider 并发数必须在 1 到 16 之间",
                ),
            );
        }
        validate_auth_strategy(&self.auth)?;
        match &self.idempotency_header {
            Some(h) => validate_header_name(h.as_str(), "invalid_idempotency_header")?,
            None => {},
        }
        if self.replay_safety == ReplaySafety::SafeWithVerifiedIdempotencyKey
            && self.idempotency_header.is_none() {
            return Err(
                ProviderError::configuration(
                    "missing_idempotency_header",
                    "幂等重放策略需要显式配置已验证的幂等 Header",
                ),
            );
        }
        let parsed = match summarize_url(self.endpoint.as_str()) {
            Some(p) => p,
            None => {
                return Err(ProviderError::configuration("invalid_provider_endpoint", "Provider 地址无效"));
            },
        };
        if parsed.3 || parsed.4 {
            return Err(
                ProviderError::configuration(
                    "invalid_provider_endpoint",
                    "Provider 地址不得包含凭据、查询参数或片段",
                ),
            );
        }
        let loopback = match &parsed.2 {
            Some(h) => str_eq(h.as_str(), "localhost") || str_eq(h.as_str(), "127.0.0.1") || str_eq(
                h.as_str(),
                "::1",
            ),
            None => false,
        };
        let is_https = str_eq(parsed.1.as_str(), "https");
        let allowed_loopback = self.allow_insecure_loopback && str_eq(parsed.1.as_str(), "http")
            && loopback;
        if !is_https && !allowed_loopback {
            return Err(
                ProviderError::configuration("insecure_provider_endpoint", "生产 Provider 必须使用 HTTPS"),
            );
        }
        Ok(parsed.0)
    }

    /// Whether a verified idempotency key is configured for retry decisions.
    pub fn has_idempotency_key(&self) -> (r: bool)
        ensures
            r == (self.replay_safety == ReplaySafety::SafeWithVerifiedIdempotencyKey
                && self.idempotency_header is Some),
    {
        self.replay_safety == ReplaySafety::SafeWithVerifiedIdempotencyKey
            && self.idempotency_header.is_some()
    }

    /// The description of the profile; the endpoint and model are never shown.
    pub fn debug_string(&self) -> (r: String)
        ensures
            r@ == "ProviderHttpConfig { provider_id, adapter_id, adapter_version, endpoint: [REDACTED], model: [CONFIGURED] }"@,
    {
        crate::text::copy_str(
            "ProviderHttpConfig { provider_id, adapter_id, adapter_version, endpoint: [REDACTED], model: [CONFIGURED] }",
        )
    }
}

/// The idempotency key of an operation: the lower-case hexadecimal SHA-256 of its ID.
pub open spec fn idempotency_key(operation_id: Seq<char>) -> Seq<char> {
    hex_lower(sha256_digest(vstd::utf8::encode_utf8(operation_id)))
}

impl ProviderHttpConfig {
    /// The configured idempotency header with an opaque, deterministic key for the operation.
    pub fn idempotency_header(&self, operation_id: &str) -> (r: Option<(String, String)>)
        ensures
            match self.idempotency_header {
                Some(h) => r is Some && r->Some_0.0@ == h@ && r->Some_0.1@ == idempotency_key(operation_id@),
                None => r is None,
            },
    {
        match &self.idempotency_header {
            Some(h) => {
                let digest = sha256(operation_id.as_bytes());
                let value = hex_encode(digest.as_slice());
                Some((h.clone(), value))
            },
            None => None,
        }
    }
}

/// The file part of a multipart request: its field and upload names and the media type
/// and size of the staged recording it streams (the caller holds the reader).
pub struct MultipartFile {
    pub field_name: String,
    pub upload_file_name: String,
    pub media_type: String,
    pub byte_length: u64,
}

/// A multipart request body: the file part and the text fields, one per name.
pub struct MultipartBody {
    pub file: MultipartFile,
    pub text_fields: Vec<(String, String)>,
}

/// A raw HTTP response kept by the transport: status, allow-listed headers (as an
/// ordered map, see `header_map_wf`) and body.
pub struct RawHttpResponse {
    pub status: u16,
    pub headers: Vec<(String, String)>,
    pub body: Vec<u8>,
}

/// The value of the first header whose name equals `name` ignoring ASCII case.
pub open spec fn header_value(headers: Seq<(Seq<char>, Seq<char>)>, name: Seq<char>, i: int) -> Option<
    Seq<char>,
>
    decreases headers.len() - i,
{
    if i < 0 || i >= headers.len() {
        None
    } else if ascii_lower_seq(headers[i].0) == ascii_lower_seq(name) {
        Some(headers[i].1)
    } else {
        header_value(headers, name, i + 1)
    }
}

/// The view of header pairs.
pub open spec fn headers_view(h: Seq<(String, String)>) -> Seq<(Seq<char>, Seq<char>)> {
    h.map_values(|p: (String, String)| (p.0@, p.1@))
}

/// Whether one name sorts before another as `String`'s order has it: by code point,
/// a proper prefix first.
pub open spec fn name_less(a: Seq<char>, b: Seq<char>) -> bool
    decreases a.len(),
{
    if a.len() == 0 {
        b.len() > 0
    } else if b.len() == 0 {
        false
    } else if a[0] != b[0] {
        (a[0] as u32) < (b[0] as u32)
    } else {
        name_less(a.skip(1), b.skip(1))
    }
}

/// Header pairs as an ordered map holds them: names strictly ascending, so each name
/// occurs once.
pub open spec fn header_map_wf(h: Seq<(Seq<char>, Seq<char>)>) -> bool {
    forall|i: int, j: int| 0 <= i < j < h.len() ==> name_less(#[trigger] h[i].0, #[trigger] h[j].0)
}

impl RawHttpResponse {
    /// A response with the given status, headers (an ordered map: names ascending, each
    /// once) and body.
    pub fn new(status: u16, headers: Vec<(String, String)>, body: Vec<u8>) -> (r: Self)
        requires
            header_map_wf(headers_view(headers@)),
        ensures
            r.status == status,
            r.headers@ == headers@,
            r.body@ == body@,
            header_map_wf(headers_view(r.headers@)),
    {
        RawHttpResponse { status, headers, body }
    }

    /// The value of a header, looked up ignoring ASCII case.
    pub fn header(&self, name: &str) -> (r: Option<&str>)
        ensures
            match header_value(headers_view(self.headers@), name@, 0) {
                Some(v) => r is Some && r->Some_0@ == v,
                None => r is None,
            },
    {
        let ghost hv = headers_view(self.headers@);
        let lname = ascii_lowercase(name);
        let mut i: usize = 0;
        while i < self.headers.len()
            invariant
                0 <= i <= self.headers@.len(),
                hv == headers_view(self.headers@),
                lname@ == ascii_lower_seq(name@),
                header_value(hv, name@, 0) == header_value(hv, name@, i as int),
            decreases self.headers@.len() - i,
        {
            let key = ascii_lowercase(self.headers[i].0.as_str());
            if str_eq(key.as_str(), lname.as_str()) {
                return Some(self.headers[i].1.as_str());
            }
            i = i + 1;
        }
        None
    }
}

/// A transport failure class.
#[derive(Debug, Clone, Copy, PartialEq, Eq, Structural)]
pub enum TransportErrorKind {
    Connect,
    Timeout,
    Network,
    RequestBuild,
    BodyRead,
    LocalFile,
    ResponseTooLarge,
    Cancelled,
}

/// A sanitized transport failure.
#[derive(Debug, Clone, Copy, PartialEq, Eq, Structural)]
pub struct TransportError {
    pub kind: TransportErrorKind,
    pub outcome: OperationOutcome,
}

/// The provider error of a transport failure.
pub open spec fn transport_provider_error(t: TransportError) -> ProviderErrorV {
    match t.kind {
        TransportErrorKind::Connect => provider_error(
            "network_unavailable"@,
            ProviderErrorCategory::Network,
            true,
            false,
            "无法连接云端服务"@,
            None,
            None,
            t.outcome,
        ),
        TransportErrorKind::Timeout => provider_error(
            "request_timeout"@,
            ProviderErrorCategory::Timeout,
            true,
            false,
            "云端请求超时"@,
            None,
            None,
            t.outcome,
        ),
        TransportErrorKind::Network | TransportErrorKind::BodyRead => provider_error(
            "network_unavailable"@,
            ProviderErrorCategory::Network,
            true,
            false,
            "云端连接中断"@,
            None,
            None,
            t.outcome,
        ),
        TransportErrorKind::RequestBuild => configuration_error(
            "provider_request_build_failed"@,
            "Provider 请求配置无效"@,
        ),
        TransportErrorKind::LocalFile => provider_error(
            "staged_file_unavailable"@,
            ProviderErrorCategory::LocalResource,
            false,
            false,
            "受管音频文件不可读取"@,
            None,
            None,
            OperationOutcome::NotSent,
        ),
        TransportErrorKind::ResponseTooLarge => provider_error(
            "response_too_large"@,
            ProviderErrorCategory::Protocol,
            false,
            false,
            "Provider 响应超过安全上限"@,
            None,
            None,
            OperationOutcome::Failed,
        ),
        TransportErrorKind::Cancelled => cancelled_error(),
    }
}

impl TransportError {
    /// A transport failure of a kind with the best-known outcome.
    pub fn new(kind: TransportErrorKind, outcome: OperationOutcome) -> (r: Self)
        ensures
            r.kind == kind,
            r.outcome == outcome,
    {
        TransportError { kind, outcome }
    }

    /// The sanitized provider error of this failure.
    pub fn into_provider_error(self) -> (r: ProviderError)
        ensures
            r@ == transport_provider_error(self),
    {
        match self.kind {
            TransportErrorKind::Connect => ProviderError::new(
                "network_unavailable",
                ProviderErrorCategory::Network,
                true,
                false,
                "无法连接云端服务",
                None,
                None,
                self.outcome,
            ),
            TransportErrorKind::Timeout => ProviderError::new(
                "request_timeout",
                ProviderErrorCategory::Timeout,
                true,
                false,
                "云端请求超时",
                None,
                None,
                self.outcome,
            ),
            TransportErrorKind::Network | TransportErrorKind::BodyRead => ProviderError::new(
                "network_unavailable",
                ProviderErrorCategory::Network,
                true,
                false,
                "云端连接中断",
                None,
                None,
                self.outcome,
            ),
            TransportErrorKind::RequestBuild => ProviderError::configuration(
                "provider_request_build_failed",
                "Provider 请求配置无效",
            ),
            TransportErrorKind::LocalFile => ProviderError::new(
                "staged_file_unavailable",
                ProviderErrorCategory::LocalResource,
                false,
                false,
                "受管音频文件不可读取",
                None,
                None,
                OperationOutcome::NotSent,
            ),
            TransportErrorKind::ResponseTooLarge => ProviderError::new(
                "response_too_large",
                ProviderErrorCategory::Protocol,
                false,
                false,
                "Provider 响应超过安全上限",
                None,
                None,
                OperationOutcome::Failed,
            ),
            TransportErrorKind::Cancelled => ProviderError::cancelled(),
        }
    }
}

/// Whether chrono's `DateTime::parse_from_rfc2822` reads the text as a date.
pub uninterp spec fn rfc2822_date_text(s: Seq<char>) -> bool;

/// Reads an RFC 2822 date with chrono's `DateTime::parse_from_rfc2822` and returns the
/// signed milliseconds from now (`Utc::now`) until that date; whether a value comes back
/// is the named property of the text, the value itself depends on the clock and is left
/// unstated.
#[verifier::external_body]
fn ms_until_rfc2822(value: &str) -> (r: Option<i64>)
    ensures
        r is Some <==> rfc2822_date_text(value@),
{
    match chrono::DateTime::parse_from_rfc2822(value) {
        Ok(d) => Some(d.with_timezone(&chrono::Utc).signed_duration_since(chrono::Utc::now()).num_milliseconds()),
        Err(_) => None,
    }
}

/// The delay a delta-seconds Retry-After value asks for, in milliseconds (saturating).
pub open spec fn retry_after_seconds_ms(value: Seq<char>) -> Option<u64> {
    match unsigned_value(trim(value)) {
        Some(n) => if n <= u64::MAX {
            Some(
                if n * 1000 > u64::MAX {
                    u64::MAX
                } else {
                    (n * 1000) as u64
                },
            )
        } else {
            None
        },
        None => None,
    }
}

/// Parses a Retry-After value: delta-seconds (saturating to milliseconds), or an HTTP
/// date in the future.
pub fn parse_retry_after_ms(value: &str) -> (r: Option<u64>)
    ensures
        retry_after_seconds_ms(value@) is Some ==> r == retry_after_seconds_ms(value@),
        retry_after_seconds_ms(value@) is None && !rfc2822_date_text(trim(value@)) ==> r is None,
        r matches Some(ms) ==> retry_after_seconds_ms(value@) is Some || ms > 0,
{
    let t = trim_str(value);
    match parse_u64_text(t.as_str()) {
        Some(n) => {
            let ms: u64 = match n.checked_mul(1000) {
                Some(v) => v,
                None => u64::MAX,
            };
            Some(ms)
        },
        None => match ms_until_rfc2822(t.as_str()) {
            Some(ms) => if ms > 0 {
                Some(ms as u64)
            } else {
                None
            },
            None => None,
        },
    }
}

/// Parses an unsigned decimal text as `str::parse::<u64>` does.
fn parse_u64_text(s: &str) -> (r: Option<u64>)
    ensures
        match unsigned_value(s@) {
            Some(n) => if n <= u64::MAX {
                r == Some(n as u64)
            } else {
                r is None
            },
            None => r is None,
        },
{
    let c = chars_of(s);
    let start: usize = if c.len() > 0 && c[0] == '+' {
        1
    } else {
        0
    };
    let ghost d = if c@.len() > 0 && c@[0] == '+' {
        c@.skip(1)
    } else {
        c@
    };
    proof {
        assert(d =~= c@.skip(start as int));
        assert(d.take(0) =~= Seq::<char>::empty());
    }
    if start >= c.len() {
        return None;
    }
    let mut acc: u64 = 0;
    let mut overflow = false;
    let mut i: usize = start;
    while i < c.len()
        invariant
            start <= i <= c@.len(),
            d == c@.skip(start as int),
            c@ == s@,
            d == (if c@.len() > 0 && c@[0] == '+' {
                c@.skip(1)
            } else {
                c@
            }),
            crate::minutes::dates::all_digits(d.take(i - start)),
            !overflow ==> acc as nat == crate::minutes::dates::digits_value(d.take(i - start)),
            overflow ==> crate::minutes::dates::digits_value(d.take(i - start)) > u64::MAX,
        decreases c@.len() - i,
    {
        let ch = c[i];
        if !('0' <= ch && ch <= '9') {
            proof {
                assert(d[i - start] == ch);
                assert(!crate::minutes::dates::all_digits(d));
            }
            return None;
        }
        let ghost k = i - start;
        proof {
            assert(d.take(k + 1).drop_last() =~= d.take(k));
            assert(d.take(k + 1).last() == ch);
            assert(crate::minutes::dates::all_digits(d.take(k + 1))) by {
                assert forall|m: int| 0 <= m < d.take(k + 1).len() implies crate::minutes::dates::is_digit(
                    #[trigger] d.take(k + 1)[m],
                ) by {
                    if m < k {
                        assert(d.take(k + 1)[m] == d.take(k)[m]);
                    }
                }
            }
        }
        if !overflow {
            let dv: u64 = (ch as u32 - 48) as u64;
            match acc.checked_mul(10) {
                Some(t) => match t.checked_add(dv) {
                    Some(v) => {
                        acc = v;
                    },
                    None => {
                        overflow = true;
                    },
                },
                None => {
                    overflow = true;
                },
            }
        }
        i = i + 1;
    }
    proof {
        assert(d.take(d.len() as int) =~= d);
    }
    if overflow {
        None
    } else {
        Some(acc)
    }
}

/// The classification of a non-success HTTP status: code, category, retryable,
/// message and outcome; success statuses have none.
pub open spec fn status_class(status: u16) -> Option<
    (Seq<char>, ProviderErrorCategory, bool, Seq<char>, OperationOutcome),
> {
    if 200 <= status && status < 300 {
        None
    } else if status == 401 {
        Some(("http_401"@, ProviderErrorCategory::Authentication, false, "Provider 凭据无效或缺失"@, OperationOutcome::Rejected))
    } else if status == 403 {
        Some(("http_403"@, ProviderErrorCategory::Permission, false, "Provider 拒绝当前凭据访问"@, OperationOutcome::Rejected))
    } else if status == 408 {
        Some(("http_408"@, ProviderErrorCategory::Timeout, true, "Provider 请求超时"@, OperationOutcome::Rejected))
    } else if status == 413 {
        Some(("http_413"@, ProviderErrorCategory::Input, false, "音频文件超过 Provider 限制"@, OperationOutcome::Rejected))
    } else if status == 429 {
        Some(("http_429"@, ProviderErrorCategory::RateLimit, true, "Provider 请求过于频繁"@, OperationOutcome::Rejected))
    } else if 500 <= status && status <= 599 {
        Some(("http_5xx"@, ProviderErrorCategory::Provider, true, "Provider 暂时不可用"@, OperationOutcome::Failed))
    } else {
        Some(("provider_request_rejected"@, ProviderErrorCategory::Protocol, false, "Provider 拒绝请求或返回非预期状态"@, OperationOutcome::Rejected))
    }
}

/// Whether `e` is the sanitized error of a non-success status: the class of the status,
/// never replay-safe, with the status, no remote ID, and the Retry-After hint (a number of
/// seconds is read exactly; a date is read against the clock).
pub open spec fn status_error_matches(status: u16, headers: Seq<(Seq<char>, Seq<char>)>, e: ProviderErrorV) -> bool {
    let c = status_class(status)->Some_0;
    &&& e.code == c.0
    &&& e.category == c.1
    &&& e.retryable == c.2
    &&& !e.replay_safe
    &&& e.safe_message == c.3
    &&& e.outcome == c.4
    &&& e.http_status == Some(status)
    &&& e.remote_request_id is None
    &&& match header_value(headers, "retry-after"@, 0) {
        None => e.retry_after_ms is None,
        Some(v) => {
            &&& (retry_after_seconds_ms(v) is Some ==> e.retry_after_ms == retry_after_seconds_ms(v))
            &&& (retry_after_seconds_ms(v) is None && !rfc2822_date_text(trim(v)) ==> e.retry_after_ms is None)
            &&& (e.retry_after_ms matches Some(ms) ==> retry_after_seconds_ms(v) is Some || ms > 0)
        },
    }
}

/// Maps a non-success response to the sanitized error contract; the retry hint comes
/// from the Retry-After header.
pub fn classify_http_status(response: &RawHttpResponse) -> (r: Option<ProviderError>)
    ensures
        match status_class(response.status) {
            None => r is None,
            Some(c) => r is Some && status_error_matches(response.status, headers_view(response.headers@), r->Some_0@),
        },
{
    let status = response.status;
    if 200 <= status && status < 300 {
        return None;
    }
    let retry_after_ms = match response.header("retry-after") {
        Some(v) => parse_retry_after_ms(v),
        None => None,
    };
    let (code, category, retryable, message, outcome) = if status == 401 {
        ("http_401", ProviderErrorCategory::Authentication, false, "Provider 凭据无效或缺失", OperationOutcome::Rejected)
    } else if status == 403 {
        ("http_403", ProviderErrorCategory::Permission, false, "Provider 拒绝当前凭据访问", OperationOutcome::Rejected)
    } else if status == 408 {
        ("http_408", ProviderErrorCategory::Timeout, true, "Provider 请求超时", OperationOutcome::Rejected)
    } else if status == 413 {
        ("http_413", ProviderErrorCategory::Input, false, "音频文件超过 Provider 限制", OperationOutcome::Rejected)
    } else if status == 429 {
        ("http_429", ProviderErrorCategory::RateLimit, true, "Provider 请求过于频繁", OperationOutcome::Rejected)
    } else if 500 <= status && status <= 599 {
        ("http_5xx", ProviderErrorCategory::Provider, true, "Provider 暂时不可用", OperationOutcome::Failed)
    } else {
        ("provider_request_rejected", ProviderErrorCategory::Protocol, false, "Provider 拒绝请求或返回非预期状态", OperationOutcome::Rejected)
    };
    Some(
        ProviderError::new(
            code,
            category,
            retryable,
            false,
            message,
            Some(status),
            retry_after_ms,
            outcome,
        ),
    )
}

/// The transport failure a send error stands for: a refused connection was not sent, a
/// timeout may have been, a request that could not be built was not sent, and any other
/// failure may have been.
pub fn classify_send_failure(is_connect: bool, is_timeout: bool, is_build_or_request: bool) -> (r: TransportError)
    ensures
        r == (if is_connect {
            TransportError { kind: TransportErrorKind::Connect, outcome: OperationOutcome::NotSent }
        } else if is_timeout {
            TransportError { kind: TransportErrorKind::Timeout, outcome: OperationOutcome::Unknown }
        } else if is_build_or_request {
            TransportError { kind: TransportErrorKind::RequestBuild, outcome: OperationOutcome::NotSent }
        } else {
            TransportError { kind: TransportErrorKind::Network, outcome: OperationOutcome::Unknown }
        }),
{
    if is_connect {
        TransportError { kind: TransportErrorKind::Connect, outcome: OperationOutcome::NotSent }
    } else if is_timeout {
        TransportError { kind: TransportErrorKind::Timeout, outcome: OperationOutcome::Unknown }
    } else if is_build_or_request {
        TransportError { kind: TransportErrorKind::RequestBuild, outcome: OperationOutcome::NotSent }
    } else {
        TransportError { kind: TransportErrorKind::Network, outcome: OperationOutcome::Unknown }
    }
}

/// Admits one more chunk of a response body: the new total, or the failure of a body
/// over the limit.
pub fn accept_body_chunk(received: u64, chunk_len: u64, max_response_bytes: u64) -> (r: Result<u64, TransportError>)
    ensures
        received + chunk_len <= max_response_bytes ==> r == Ok::<u64, TransportError>((received + chunk_len) as u64),
        received + chunk_len > max_response_bytes ==> r == Err::<u64, TransportError>(
            TransportError { kind: TransportErrorKind::ResponseTooLarge, outcome: OperationOutcome::Failed },
        ),
{
    if chunk_len > max_response_bytes || received > max_response_bytes - chunk_len {
        return Err(TransportError { kind: TransportErrorKind::ResponseTooLarge, outcome: OperationOutcome::Failed });
    }
    Ok(received + chunk_len)
}

} // verus!
