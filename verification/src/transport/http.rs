//! The HTTP transport: its settings, the request it sends for a
//! notification, and the interactive set-up that asks a user for them.
use vstd::prelude::*;
use vstd::utf8::encode_utf8;

use crate::text::{
    lower_case, push_char, repeat_char, same_text, split_once, split_once_spec, to_lowercase,
    to_uppercase, trim, trimmed, upper_case,
};
use crate::transport::params::{keys_distinct, pairs_map, Params};
use crate::transport::TransportService;

verus! {

/// The HTTP method with which a notification is sent.
#[allow(non_camel_case_types)]
#[derive(Clone, Copy, Debug, PartialEq, Eq, Structural)]
pub enum Method {
    POST,
    PUT,
    PATCH,
}

/// The settings of an HTTP transport.
pub struct Http {
    name: String,
    method: Method,
    uri: String,
    headers: Option<Params>,
    query_params: Option<Params>,
    json_body: Option<bool>,
}

/// What an `Http` transport holds, as mathematical values.
pub struct HttpView {
    pub name: Seq<char>,
    pub method: Method,
    pub uri: Seq<char>,
    pub headers: Option<Map<Seq<char>, Seq<char>>>,
    pub query_params: Option<Map<Seq<char>, Seq<char>>>,
    pub json_body: Option<bool>,
}

/// The map that an optional `Params` holds.
pub open spec fn params_view(p: Option<Params>) -> Option<Map<Seq<char>, Seq<char>>> {
    match p {
        Some(p) => Some(p@),
        None => None,
    }
}

impl View for Http {
    type V = HttpView;

    closed spec fn view(&self) -> HttpView {
        HttpView {
            name: self.name@,
            method: self.method,
            uri: self.uri@,
            headers: params_view(self.headers),
            query_params: params_view(self.query_params),
            json_body: self.json_body,
        }
    }
}

impl Http {
    /// A transport with the given settings.
    pub fn new(
        name: String,
        method: Method,
        uri: String,
        headers: Option<Params>,
        query_params: Option<Params>,
        json_body: Option<bool>,
    ) -> (r: Http)
        ensures
            r@ == (HttpView {
                name: name@,
                method,
                uri: uri@,
                headers: params_view(headers),
                query_params: params_view(query_params),
                json_body,
            }),
    {
        Http { name, method, uri, headers, query_params, json_body }
    }

    /// The method it sends with.
    pub fn method(&self) -> (r: Method)
        ensures
            r == self@.method,
    {
        self.method
    }

    /// The address it sends to.
    pub fn uri(&self) -> (r: &str)
        ensures
            r@ == self@.uri,
    {
        self.uri.as_str()
    }

    /// The extra headers it sends, if any were configured.
    pub fn headers(&self) -> (r: &Option<Params>)
        ensures
            params_view(*r) == self@.headers,
    {
        &self.headers
    }

    /// The query parameters it adds to the address, if any were configured.
    pub fn query_params(&self) -> (r: &Option<Params>)
        ensures
            params_view(*r) == self@.query_params,
    {
        &self.query_params
    }

    /// Whether the body is sent as JSON, if that was configured.
    pub fn json_body(&self) -> (r: Option<bool>)
        ensures
            r == self@.json_body,
    {
        self.json_body
    }
}

impl TransportService for Http {
    open spec fn transport_name(&self) -> Seq<char> {
        self@.name
    }

    fn name(&self) -> (r: &str) {
        self.name.as_str()
    }
}

/// The body of a notification request.
pub enum RequestBody {
    /// A JSON object with the fields `title` and `body`.
    Json { title: String, body: String },
    /// Plain text.
    Text(String),
}

/// How long a notification request may take in all, in seconds.
pub const REQUEST_TIMEOUT_SECS: u64 = 10;

/// Everything that an HTTP transport sends for one notification.
pub struct HttpRequest {
    /// The longest the whole request may take, in seconds.
    pub timeout_secs: u64,
    pub method: Method,
    pub uri: String,
    pub query: Vec<(String, String)>,
    pub headers: Vec<(String, String)>,
    pub body: RequestBody,
}

/// Pairs of strings as pairs of texts.
pub open spec fn pair_views(v: Seq<(String, String)>) -> Seq<(Seq<char>, Seq<char>)> {
    v.map_values(|e: (String, String)| (e.0@, e.1@))
}

/// The plain-text body of a notification: the title, a line of dashes as long
/// as the title's UTF-8 encoding but at most 100 of them, an empty line, and
/// the body.
pub open spec fn text_payload(title: Seq<char>, body: Seq<char>) -> Seq<char> {
    let bytes = encode_utf8(title).len();
    let dashes: nat = if bytes < 100 { bytes } else { 100 };
    title + seq!['\n'] + Seq::new(dashes, |k: int| '-') + seq!['\n', '\n'] + body
}

/// The pairs of an optional map: those it holds, or none.
pub open spec fn sends_pairs(sent: Seq<(Seq<char>, Seq<char>)>, m: Option<Map<Seq<char>, Seq<char>>>) -> bool {
    match m {
        Some(m) => keys_distinct(sent) && pairs_map(sent) == m,
        None => sent.len() == 0,
    }
}

fn clone_pairs(p: &Option<Params>) -> (r: Vec<(String, String)>)
    ensures
        sends_pairs(pair_views(r@), params_view(*p)),
{
    match p {
        None => {
            let r: Vec<(String, String)> = Vec::new();
            assert(pair_views(r@) =~= Seq::<(Seq<char>, Seq<char>)>::empty());
            r
        },
        Some(params) => {
            let entries = params.entries();
            let mut r: Vec<(String, String)> = Vec::new();
            let mut i: usize = 0;
            while i < entries.len()
                invariant
                    i <= entries@.len(),
                    pair_views(r@) =~= pair_views(entries@).take(i as int),
                decreases entries@.len() - i,
            {
                let k = entries[i].0.clone();
                let v = entries[i].1.clone();
                let ghost before = pair_views(r@);
                r.push((k, v));
                assert(pair_views(r@) =~= before.push((entries@[i as int].0@, entries@[i as int].1@)));
                assert(pair_views(entries@)[i as int] == (entries@[i as int].0@, entries@[i as int].1@));
                i = i + 1;
                assert(pair_views(entries@).take(i as int) =~= pair_views(entries@).take(i - 1).push(
                    pair_views(entries@)[i - 1],
                ));
            }
            assert(pair_views(entries@).take(i as int) =~= pair_views(entries@));
            r
        },
    }
}

/// The plain-text body for `title` and `body`.
pub fn plain_payload(title: &str, body: &str) -> (r: String)
    requires
        encode_utf8(title@).len() <= usize::MAX,
    ensures
        r@ == text_payload(title@, body@),
{
    let bytes = title.len();
    let count = if bytes < 100 {
        bytes
    } else {
        100
    };
    let mut s = title.to_owned();
    push_char(&mut s, '\n');
    let dashes = repeat_char('-', count);
    s.append(dashes.as_str());
    push_char(&mut s, '\n');
    push_char(&mut s, '\n');
    s.append(body);
    assert(s@ =~= text_payload(title@, body@));
    s
}

impl Http {
    /// The request that sends a notification with `title` and `body`: the
    /// configured method, address, query parameters and headers, and either a
    /// JSON body or the plain-text payload.
    pub fn request(&self, title: &str, body: &str) -> (r: HttpRequest)
        requires
            encode_utf8(title@).len() <= usize::MAX,
        ensures
            r.timeout_secs == REQUEST_TIMEOUT_SECS,
            r.method == self@.method,
            r.uri@ == self@.uri,
            sends_pairs(pair_views(r.query@), self@.query_params),
            sends_pairs(pair_views(r.headers@), self@.headers),
            self@.json_body == Some(true) ==> (r.body matches RequestBody::Json { title: t, body: b }
                && t@ == title@ && b@ == body@),
            self@.json_body != Some(true) ==> (r.body matches RequestBody::Text(p) && p@
                == text_payload(title@, body@)),
    {
        let query = clone_pairs(&self.query_params);
        let headers = clone_pairs(&self.headers);
        let body = match self.json_body {
            Some(true) => RequestBody::Json { title: title.to_owned(), body: body.to_owned() },
            _ => RequestBody::Text(plain_payload(title, body)),
        };
        HttpRequest {
            timeout_secs: REQUEST_TIMEOUT_SECS,
            method: self.method,
            uri: self.uri.clone(),
            query,
            headers,
            body,
        }
    }
}

/// Why a notification over HTTP was not accepted.
pub enum HttpError {
    /// The server answered with a status other than 200 OK.
    UnexpectedStatus(u16),
}

/// Accepts the answer to a notification request only when its status is
/// 200 OK.
pub fn check_status(status: u16) -> (r: Result<(), HttpError>)
    ensures
        r is Ok <==> status == 200,
        r matches Err(HttpError::UnexpectedStatus(s)) ==> s == status,
{
    if status == 200 {
        Ok(())
    } else {
        Err(HttpError::UnexpectedStatus(status))
    }
}

/// How long to wait before attempt `attempt + 1` (counting from 0) of at most
/// `max_attempts`, starting from `base_delay_ms` and doubling each time; `None`
/// once no attempt is left.
pub fn retry_delay(attempt: u32, max_attempts: u32, base_delay_ms: u64) -> (r: Option<u64>)
    ensures
        attempt + 1 >= max_attempts ==> r is None,
        attempt + 1 < max_attempts ==> (r matches Some(d) && (if base_delay_ms * pow2(
            attempt as nat,
        ) <= u64::MAX {
            d == base_delay_ms * pow2(attempt as nat)
        } else {
            d == u64::MAX
        })),
{
    if attempt >= max_attempts || attempt + 1 >= max_attempts {
        return None;
    }
    let mut d: u64 = base_delay_ms;
    let mut k: u32 = 0;
    assert(pow2(0) == 1);
    while k < attempt
        invariant
            k <= attempt,
            base_delay_ms * pow2(k as nat) <= u64::MAX ==> d == base_delay_ms * pow2(k as nat),
            base_delay_ms * pow2(k as nat) > u64::MAX ==> d == u64::MAX,
        decreases attempt - k,
    {
        proof {
            lemma_pow2_step(k as nat);
            lemma_mul_double(base_delay_ms as int, pow2(k as nat) as int);
        }
        if d > u64::MAX / 2 {
            d = u64::MAX;
        } else {
            d = d * 2;
        }
        k = k + 1;
    }
    Some(d)
}

/// Two to the power `n`.
pub open spec fn pow2(n: nat) -> nat
    decreases n,
{
    if n == 0 {
        1
    } else {
        2 * pow2((n - 1) as nat)
    }
}

proof fn lemma_pow2_step(n: nat)
    ensures
        pow2(n + 1) == 2 * pow2(n),
        pow2(n) >= 1,
    decreases n,
{
    if n > 0 {
        lemma_pow2_step((n - 1) as nat);
    }
}

proof fn lemma_mul_double(a: int, b: int)
    ensures
        a * (2 * b) == 2 * (a * b),
{
    assert(a * (2 * b) == 2 * (a * b)) by (nonlinear_arith);
}

/// The question that asks for the transport's name.
pub const NAME_PROMPT: &'static str = "Enter a unique name for this HTTP transport: ";

/// The question that asks for the address.
pub const URI_PROMPT: &'static str = "Enter the URI to send notifications to: ";

/// The question that asks for the method.
pub const METHOD_PROMPT: &'static str = "Enter the HTTP method to use (POST, PUT, PATCH): ";

/// The answer to a method that is none of the three.
pub const METHOD_INVALID: &'static str = "Invalid HTTP method. Please enter POST, PUT, or PATCH.";

/// The question whether the body is JSON.
pub const JSON_PROMPT: &'static str = "Should the body be sent as JSON? [yes/no] (no): ";

/// The question whether to add headers.
pub const HEADERS_QUESTION: &'static str = "Do you want to add custom headers? [yes/no] (no): ";

/// The question that asks for one header.
pub const HEADER_PROMPT: &'static str =
    "Enter a header in the format 'Key: Value' (or leave blank to finish): ";

/// The answer to a header without a colon.
pub const HEADER_INVALID: &'static str = "Invalid header format. Please enter in the format 'Key: Value'.";

/// The question whether to add query parameters.
pub const QUERY_QUESTION: &'static str = "Do you want to add custom query parameters? [yes/no] (no): ";

/// The question that asks for one query parameter.
pub const QUERY_PROMPT: &'static str =
    "Enter a query parameter in the format 'Key=Value' (or leave blank to finish): ";

/// The answer to a query parameter without an equals sign.
pub const QUERY_INVALID: &'static str =
    "Invalid query parameter format. Please enter in the format 'Key=Value'.";

/// The method whose name is `upper`, an answer already in upper case.
pub open spec fn method_named(upper: Seq<char>) -> Option<Method> {
    if upper == "POST"@ {
        Some(Method::POST)
    } else if upper == "PUT"@ {
        Some(Method::PUT)
    } else if upper == "PATCH"@ {
        Some(Method::PATCH)
    } else {
        None
    }
}

/// Whether `lowered`, an answer already in lower case, says yes: `yes` or
/// `y` once trimmed.
pub open spec fn says_yes(lowered: Seq<char>) -> bool {
    trimmed(lowered) == "yes"@ || trimmed(lowered) == "y"@
}

/// The method named by an answer already in upper case.
pub fn method_from_upper(upper: &str) -> (r: Option<Method>)
    ensures
        r == method_named(upper@),
{
    if same_text(upper, "POST") {
        Some(Method::POST)
    } else if same_text(upper, "PUT") {
        Some(Method::PUT)
    } else if same_text(upper, "PATCH") {
        Some(Method::PATCH)
    } else {
        None
    }
}

/// Whether an answer already in lower case says yes.
pub fn is_yes(lowered: &str) -> (r: bool)
    ensures
        r == says_yes(lowered@),
{
    let t = trim(lowered);
    same_text(t, "yes") || same_text(t, "y")
}

/// The method named by a user's answer: its upper-case form must be
/// exactly `POST`, `PUT` or `PATCH`.
pub fn parse_method(answer: &str) -> (r: Option<Method>)
    ensures
        r == method_named(upper_case(answer@)),
{
    let upper = to_uppercase(answer);
    method_from_upper(upper.as_str())
}

/// Whether a user's answer to a yes/no question says yes.
pub fn answer_is_yes(answer: &str) -> (r: bool)
    ensures
        r == says_yes(lower_case(answer@)),
{
    let lowered = to_lowercase(answer);
    is_yes(lowered.as_str())
}

/// Where the set-up of an HTTP transport stands: which answer it waits for.
#[derive(Clone, Copy, Debug, PartialEq, Eq, Structural)]
pub enum SetupStage {
    Name,
    Uri,
    Method,
    JsonBody,
    AskHeaders,
    Header,
    AskQuery,
    Query,
    Done,
}

/// What the set-up asks of the one who runs it after an answer.
pub enum SetupAction {
    /// Ask this question and hand back the answer.
    Ask(String),
    /// Tell the user this message, then ask this question again.
    Retry { message: String, prompt: String },
    /// The set-up is complete: this is the transport.
    Finished(Http),
}

/// The interactive set-up of an HTTP transport: it asks, in turn, for the
/// name, the address, the method, whether the body is JSON, the headers and
/// the query parameters.
pub struct HttpSetup {
    stage: SetupStage,
    name: String,
    uri: String,
    method: Method,
    json_body: bool,
    headers: Option<Params>,
    query_params: Option<Params>,
}

/// What an `HttpSetup` has gathered so far.
pub struct HttpSetupView {
    pub stage: SetupStage,
    pub name: Seq<char>,
    pub uri: Seq<char>,
    pub method: Method,
    pub json_body: bool,
    pub headers: Option<Map<Seq<char>, Seq<char>>>,
    pub query_params: Option<Map<Seq<char>, Seq<char>>>,
}

impl HttpSetupView {
    /// The transport that the answers so far describe.
    pub open spec fn http(self) -> HttpView {
        HttpView {
            name: self.name,
            method: self.method,
            uri: self.uri,
            headers: self.headers,
            query_params: self.query_params,
            json_body: Some(self.json_body),
        }
    }

    /// The headers so far, none being an empty map.
    pub open spec fn header_map(self) -> Map<Seq<char>, Seq<char>> {
        match self.headers {
            Some(m) => m,
            None => Map::empty(),
        }
    }

    /// The query parameters so far, none being an empty map.
    pub open spec fn query_map(self) -> Map<Seq<char>, Seq<char>> {
        match self.query_params {
            Some(m) => m,
            None => Map::empty(),
        }
    }
}

impl View for HttpSetup {
    type V = HttpSetupView;

    closed spec fn view(&self) -> HttpSetupView {
        HttpSetupView {
            stage: self.stage,
            name: self.name@,
            uri: self.uri@,
            method: self.method,
            json_body: self.json_body,
            headers: params_view(self.headers),
            query_params: params_view(self.query_params),
        }
    }
}

/// The transport that a finished set-up hands over holds exactly the answers
/// gathered: the name, the method, the address, the headers and query
/// parameters as given, and the JSON choice.
pub proof fn law_finished_transport_holds_answers(v: HttpSetupView)
    ensures
        v.http().name == v.name,
        v.http().method == v.method,
        v.http().uri == v.uri,
        v.http().headers == v.headers,
        v.http().query_params == v.query_params,
        v.http().json_body == Some(v.json_body),
{
}

/// Pairs that are sent for a configured map list every configured pair, each
/// once, and nothing else: every key of the map is sent with its value, and
/// every pair sent is one of the map's.
pub proof fn law_every_configured_pair_is_sent(
    sent: Seq<(Seq<char>, Seq<char>)>,
    m: Map<Seq<char>, Seq<char>>,
)
    requires
        sends_pairs(sent, Some(m)),
    ensures
        forall|k: Seq<char>|
            #[trigger] m.contains_key(k) ==> exists|i: int|
                0 <= i < sent.len() && sent[i] == (k, m[k]),
        forall|i: int|
            0 <= i < sent.len() ==> m.contains_key((#[trigger] sent[i]).0) && m[sent[i].0] == sent[i].1,
        forall|i: int, j: int| 0 <= i < j < sent.len() ==> #[trigger] sent[i].0 != #[trigger] sent[j].0,
        sends_pairs(sent, None) <==> sent.len() == 0,
{
    crate::transport::params::law_entries_list_the_map(sent);
    assert forall|k: Seq<char>| #[trigger] m.contains_key(k) implies exists|i: int|
        0 <= i < sent.len() && sent[i] == (k, m[k]) by {
        let i = choose|i: int| 0 <= i < sent.len() && (#[trigger] sent[i]).0 == k;
        assert(pairs_map(sent)[sent[i].0] == sent[i].1);
    }
}

/// The action asks `prompt`.
pub open spec fn asks(a: SetupAction, prompt: Seq<char>) -> bool {
    a matches SetupAction::Ask(p) && p@ == prompt
}

/// The action tells `message` and asks `prompt` again.
pub open spec fn retries(a: SetupAction, message: Seq<char>, prompt: Seq<char>) -> bool {
    a matches SetupAction::Retry { message: m, prompt: p } && m@ == message && p@ == prompt
}

/// The action hands over the transport `h`.
pub open spec fn finishes(a: SetupAction, h: HttpView) -> bool {
    a matches SetupAction::Finished(t) && t@ == h
}

fn take_params(p: &mut Option<Params>) -> (r: Params)
    ensures
        r@ == (match *old(p) {
            Some(q) => q@,
            None => Map::empty(),
        }),
{
    match p.take() {
        Some(q) => q,
        None => Params::new(),
    }
}

fn copy_params(p: &Option<Params>) -> (r: Option<Params>)
    ensures
        params_view(r) == params_view(*p),
{
    match p {
        Some(q) => Some(q.duplicate()),
        None => None,
    }
}

impl HttpSetup {
    /// A set-up that has gathered nothing yet, and the first question.
    pub fn new() -> (r: (HttpSetup, SetupAction))
        ensures
            r.0@.stage == SetupStage::Name,
            r.0@.name.len() == 0,
            r.0@.uri.len() == 0,
            r.0@.json_body == false,
            r.0@.headers is None,
            r.0@.query_params is None,
            asks(r.1, NAME_PROMPT@),
    {
        let setup = HttpSetup {
            stage: SetupStage::Name,
            name: String::new(),
            uri: String::new(),
            method: Method::POST,
            json_body: false,
            headers: None,
            query_params: None,
        };
        (setup, SetupAction::Ask(NAME_PROMPT.to_owned()))
    }

    fn finished(&self) -> (r: SetupAction)
        ensures
            finishes(r, self@.http()),
    {
        let h = Http::new(
            self.name.clone(),
            self.method,
            self.uri.clone(),
            copy_params(&self.headers),
            copy_params(&self.query_params),
            Some(self.json_body),
        );
        SetupAction::Finished(h)
    }

    /// Takes the user's answer to the last question and says what to do next.
    /// The answer is read with its surrounding white space trimmed.
    pub fn feed(&mut self, answer: &str) -> (a: SetupAction)
        ensures
            ({
                let t = trimmed(answer@);
                let s = old(self)@;
                let n = final(self)@;
                match s.stage {
                    SetupStage::Name => n == (HttpSetupView { stage: SetupStage::Uri, name: t, ..s })
                        && asks(a, URI_PROMPT@),
                    SetupStage::Uri => n == (HttpSetupView { stage: SetupStage::Method, uri: t, ..s })
                        && asks(a, METHOD_PROMPT@),
                    SetupStage::Method => match method_named(upper_case(t)) {
                        Some(m) => n == (HttpSetupView {
                            stage: SetupStage::JsonBody,
                            method: m,
                            ..s
                        }) && asks(a, JSON_PROMPT@),
                        None => n == s && retries(a, METHOD_INVALID@, METHOD_PROMPT@),
                    },
                    SetupStage::JsonBody => n == (HttpSetupView {
                        stage: SetupStage::AskHeaders,
                        json_body: says_yes(lower_case(t)),
                        ..s
                    }) && asks(a, HEADERS_QUESTION@),
                    SetupStage::AskHeaders => if says_yes(lower_case(t)) {
                        n == (HttpSetupView {
                            stage: SetupStage::Header,
                            headers: Some(Map::empty()),
                            ..s
                        }) && asks(a, HEADER_PROMPT@)
                    } else {
                        n == (HttpSetupView { stage: SetupStage::AskQuery, ..s }) && asks(
                            a,
                            QUERY_QUESTION@,
                        )
                    },
                    SetupStage::Header => if t.len() == 0 {
                        n == (HttpSetupView {
                            stage: SetupStage::AskQuery,
                            headers: Some(s.header_map()),
                            ..s
                        }) && asks(a, QUERY_QUESTION@)
                    } else {
                        match split_once_spec(t, ':') {
                            Some(kv) => n == (HttpSetupView {
                                headers: Some(s.header_map().insert(trimmed(kv.0), trimmed(kv.1))),
                                ..s
                            }) && asks(a, HEADER_PROMPT@),
                            None => n == s && retries(a, HEADER_INVALID@, HEADER_PROMPT@),
                        }
                    },
                    SetupStage::AskQuery => if says_yes(lower_case(t)) {
                        n == (HttpSetupView {
                            stage: SetupStage::Query,
                            query_params: Some(Map::empty()),
                            ..s
                        }) && asks(a, QUERY_PROMPT@)
                    } else {
                        n == (HttpSetupView { stage: SetupStage::Done, ..s }) && finishes(a, n.http())
                    },
                    SetupStage::Query => if t.len() == 0 {
                        n == (HttpSetupView {
                            stage: SetupStage::Done,
                            query_params: Some(s.query_map()),
                            ..s
                        }) && finishes(a, n.http())
                    } else {
                        match split_once_spec(t, '=') {
                            Some(kv) => n == (HttpSetupView {
                                query_params: Some(s.query_map().insert(trimmed(kv.0), trimmed(kv.1))),
                                ..s
                            }) && asks(a, QUERY_PROMPT@),
                            None => n == s && retries(a, QUERY_INVALID@, QUERY_PROMPT@),
                        }
                    },
                    SetupStage::Done => n == s && finishes(a, s.http()),
                }
            }),
    {
        let t = trim(answer);
        match self.stage {
            SetupStage::Name => {
                self.name = t.to_owned();
                self.stage = SetupStage::Uri;
                SetupAction::Ask(URI_PROMPT.to_owned())
            },
            SetupStage::Uri => {
                self.uri = t.to_owned();
                self.stage = SetupStage::Method;
                SetupAction::Ask(METHOD_PROMPT.to_owned())
            },
            SetupStage::Method => match parse_method(t) {
                Some(m) => {
                    self.method = m;
                    self.stage = SetupStage::JsonBody;
                    SetupAction::Ask(JSON_PROMPT.to_owned())
                },
                None => SetupAction::Retry {
                    message: METHOD_INVALID.to_owned(),
                    prompt: METHOD_PROMPT.to_owned(),
                },
            },
            SetupStage::JsonBody => {
                self.json_body = answer_is_yes(t);
                self.stage = SetupStage::AskHeaders;
                SetupAction::Ask(HEADERS_QUESTION.to_owned())
            },
            SetupStage::AskHeaders => {
                if answer_is_yes(t) {
                    self.headers = Some(Params::new());
                    self.stage = SetupStage::Header;
                    SetupAction::Ask(HEADER_PROMPT.to_owned())
                } else {
                    self.stage = SetupStage::AskQuery;
                    SetupAction::Ask(QUERY_QUESTION.to_owned())
                }
            },
            SetupStage::Header => {
                if t.is_empty() {
                    let h = take_params(&mut self.headers);
                    self.headers = Some(h);
                    self.stage = SetupStage::AskQuery;
                    SetupAction::Ask(QUERY_QUESTION.to_owned())
                } else {
                    match split_once(t, ':') {
                        Some((k, v)) => {
                            let mut h = take_params(&mut self.headers);
                            h.insert(trim(k).to_owned(), trim(v).to_owned());
                            self.headers = Some(h);
                            SetupAction::Ask(HEADER_PROMPT.to_owned())
                        },
                        None => SetupAction::Retry {
                            message: HEADER_INVALID.to_owned(),
                            prompt: HEADER_PROMPT.to_owned(),
                        },
                    }
                }
            },
            SetupStage::AskQuery => {
                if answer_is_yes(t) {
                    self.query_params = Some(Params::new());
                    self.stage = SetupStage::Query;
                    SetupAction::Ask(QUERY_PROMPT.to_owned())
                } else {
                    self.stage = SetupStage::Done;
                    self.finished()
                }
            },
            SetupStage::Query => {
                if t.is_empty() {
                    let q = take_params(&mut self.query_params);
                    self.query_params = Some(q);
                    self.stage = SetupStage::Done;
                    self.finished()
                } else {
                    match split_once(t, '=') {
                        Some((k, v)) => {
                            let mut q = take_params(&mut self.query_params);
                            q.insert(trim(k).to_owned(), trim(v).to_owned());
                            self.query_params = Some(q);
                            SetupAction::Ask(QUERY_PROMPT.to_owned())
                        },
                        None => SetupAction::Retry {
                            message: QUERY_INVALID.to_owned(),
                            prompt: QUERY_PROMPT.to_owned(),
                        },
                    }
                }
            },
            SetupStage::Done => self.finished(),
        }
    }
}

} // verus!
