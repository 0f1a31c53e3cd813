//! The calls to the DNS provider: what is sent, and what a reply means.
//!
//! Nothing here touches the network. A request is a plain value that the
//! caller sends; what came back is handed in as bytes or as a failure.

use vstd::prelude::*;

verus! {

/// Where the provider's API lives, up to the zone identifier.
pub open spec fn zones_prefix() -> Seq<char> {
    "https://api.cloudflare.com/client/v4/zones/"@
}

/// The address of the records of `zone`.
pub open spec fn records_url(zone: Seq<char>) -> Seq<char> {
    zones_prefix() + zone + "/dns_records"@
}

/// The address of the record `id` of `zone`.
pub open spec fn record_url(zone: Seq<char>, id: Seq<char>) -> Seq<char> {
    records_url(zone) + "/"@ + id
}

/// The value of the `Authorization` header for `token`.
pub open spec fn bearer(token: Seq<char>) -> Seq<char> {
    "Bearer "@ + token
}

/// The seconds after which a call to the provider is given up.
pub const PROVIDER_TIMEOUT_SECS: u64 = 30;

/// A record as the provider returned it, as far as it is read here.
#[derive(Debug, Clone, PartialEq, Eq)]
pub struct DnsRecord {
    /// The identifier that the provider assigned, if the reply held one.
    pub id: Option<String>,
    /// The address the record points to, if the reply held one.
    pub content: Option<String>,
}

/// What a reply of the provider holds.
#[derive(Debug, Clone, PartialEq, Eq)]
pub struct Envelope {
    /// The success flag, if the reply held a boolean there.
    pub success: Option<bool>,
    /// The reply's error payload, as JSON text.
    pub errors: String,
    /// The records of the reply, if it held a list.
    pub records: Option<Vec<DnsRecord>>,
}

/// Why a call to the provider did not do what was asked.
#[derive(Debug, Clone, PartialEq, Eq)]
pub enum ProviderError {
    /// The request failed on the way, or no reply could be read.
    Transport(String),
    /// The reply was no JSON document.
    Malformed(String),
    /// The provider refused; the text is its error payload.
    Api(String),
    /// The record that should be updated came without an identifier.
    MissingRecordId,
}

/// How a request is sent.
#[derive(Debug, Clone, Copy, PartialEq, Eq, Structural)]
pub enum HttpMethod {
    Get,
    Post,
    Put,
}

/// One request to the provider, ready to be sent.
#[derive(Debug, Clone, PartialEq, Eq)]
pub struct ApiRequest {
    pub method: HttpMethod,
    pub url: String,
    /// The value of the `Authorization` header.
    pub authorization: String,
    /// The query parameters, unencoded, in order.
    pub query: Vec<(String, String)>,
    /// The JSON body, sent as `application/json`.
    pub body: Option<String>,
    pub timeout_secs: u64,
}

/// What became of a request.
#[derive(Debug, Clone, PartialEq, Eq)]
pub enum HttpOutcome {
    /// It failed on the way, or its reply could not be read.
    Failed(String),
    /// The bytes of the reply's body.
    Body(Vec<u8>),
}

/// A value of a JSON object's member.
#[derive(Debug, Clone, PartialEq, Eq)]
pub enum JsonField {
    Text(String),
    Number(u32),
    Flag(bool),
}

/// The text of an optional string.
pub open spec fn opt_text(o: Option<String>) -> Option<Seq<char>> {
    match o {
        Some(s) => Some(s@),
        None => None,
    }
}

/// A record, as a mathematical value.
pub struct RecordView {
    pub id: Option<Seq<char>>,
    pub content: Option<Seq<char>>,
}

/// A reply, as a mathematical value.
pub struct EnvelopeView {
    pub success: Option<bool>,
    pub errors: Seq<char>,
    pub records: Option<Seq<RecordView>>,
}

/// A provider error, as a mathematical value.
pub enum FaultView {
    Transport(Seq<char>),
    Malformed(Seq<char>),
    Api(Seq<char>),
    MissingRecordId,
}

/// A request, as a mathematical value.
pub struct RequestView {
    pub method: HttpMethod,
    pub url: Seq<char>,
    pub authorization: Seq<char>,
    pub query: Seq<(Seq<char>, Seq<char>)>,
    pub body: Option<Seq<char>>,
    pub timeout_secs: u64,
}

/// The outcome of a request, as a mathematical value.
pub enum OutcomeView {
    Failed(Seq<char>),
    Body(Seq<u8>),
}

/// The value of a JSON member, as a mathematical value.
pub enum FieldView {
    Text(Seq<char>),
    Number(u32),
    Flag(bool),
}

/// The records of a list, as mathematical values.
pub open spec fn record_views(v: Seq<DnsRecord>) -> Seq<RecordView> {
    Seq::new(v.len(), |i: int| v[i]@)
}

/// The pairs of a list, as mathematical values.
pub open spec fn pair_views(v: Seq<(String, String)>) -> Seq<(Seq<char>, Seq<char>)> {
    Seq::new(v.len(), |i: int| (v[i].0@, v[i].1@))
}

/// The members of a list, as mathematical values.
pub open spec fn field_views(v: Seq<(String, JsonField)>) -> Seq<(Seq<char>, FieldView)> {
    Seq::new(v.len(), |i: int| (v[i].0@, v[i].1@))
}

impl View for DnsRecord {
    type V = RecordView;

    open spec fn view(&self) -> RecordView {
        RecordView { id: opt_text(self.id), content: opt_text(self.content) }
    }
}

impl View for Envelope {
    type V = EnvelopeView;

    open spec fn view(&self) -> EnvelopeView {
        EnvelopeView {
            success: self.success,
            errors: self.errors@,
            records: match self.records {
                Some(list) => Some(record_views(list@)),
                None => None,
            },
        }
    }
}

impl View for ProviderError {
    type V = FaultView;

    open spec fn view(&self) -> FaultView {
        match self {
            ProviderError::Transport(m) => FaultView::Transport(m@),
            ProviderError::Malformed(m) => FaultView::Malformed(m@),
            ProviderError::Api(m) => FaultView::Api(m@),
            ProviderError::MissingRecordId => FaultView::MissingRecordId,
        }
    }
}

impl View for ApiRequest {
    type V = RequestView;

    open spec fn view(&self) -> RequestView {
        RequestView {
            method: self.method,
            url: self.url@,
            authorization: self.authorization@,
            query: pair_views(self.query@),
            body: opt_text(self.body),
            timeout_secs: self.timeout_secs,
        }
    }
}

impl View for HttpOutcome {
    type V = OutcomeView;

    open spec fn view(&self) -> OutcomeView {
        match self {
            HttpOutcome::Failed(m) => OutcomeView::Failed(m@),
            HttpOutcome::Body(b) => OutcomeView::Body(b@),
        }
    }
}

impl View for JsonField {
    type V = FieldView;

    open spec fn view(&self) -> FieldView {
        match self {
            JsonField::Text(s) => FieldView::Text(s@),
            JsonField::Number(n) => FieldView::Number(*n),
            JsonField::Flag(b) => FieldView::Flag(*b),
        }
    }
}

/// What `serde_json` makes of the bytes `body`, read as a reply whose
/// success flag, error payload and record list stand under the first three
/// member names, and each record's identifier and content under the last
/// two: the reply, or the parser's complaint.
pub uninterp spec fn json_envelope(
    body: Seq<u8>,
    success_key: Seq<char>,
    errors_key: Seq<char>,
    result_key: Seq<char>,
    id_key: Seq<char>,
    content_key: Seq<char>,
) -> Result<EnvelopeView, Seq<char>>;

/// The compact JSON text that `serde_json` writes for the object with the
/// members `fields`.
pub uninterp spec fn json_object_text(fields: Seq<(Seq<char>, FieldView)>) -> Seq<char>;

/// Parses `body` with `serde_json::from_slice` into a `serde_json::Value`
/// and reads the named members from it, through the value's index operator
/// and its `as_bool`, `as_array`, `as_str` and `to_string`. None of them
/// panics. The contract only gives the outcome its name: it is a function
/// of the bytes and the member names alone.
#[verifier::external_body]
fn parse_envelope(
    body: &[u8],
    success_key: &str,
    errors_key: &str,
    result_key: &str,
    id_key: &str,
    content_key: &str,
) -> (r: Result<Envelope, String>)
    ensures
        match r {
            Ok(e) => json_envelope(
                body@,
                success_key@,
                errors_key@,
                result_key@,
                id_key@,
                content_key@,
            ) == Ok::<EnvelopeView, Seq<char>>(e@),
            Err(m) => json_envelope(
                body@,
                success_key@,
                errors_key@,
                result_key@,
                id_key@,
                content_key@,
            ) == Err::<EnvelopeView, Seq<char>>(m@),
        },
{
    let v: serde_json::Value = serde_json::from_slice(body).map_err(|e| e.to_string())?;
    let records = v[result_key].as_array().map(|items| {
        items.iter().map(|x| DnsRecord {
            id: x[id_key].as_str().map(String::from),
            content: x[content_key].as_str().map(String::from),
        }).collect()
    });
    Ok(Envelope { success: v[success_key].as_bool(), errors: v[errors_key].to_string(), records })
}

/// Builds a `serde_json::Map` from `fields` with `Map::insert`, one member
/// after the other, and writes it with `Value::to_string`. The contract
/// only gives the text its name: it is a function of the members alone.
#[verifier::external_body]
fn json_object(fields: &Vec<(String, JsonField)>) -> (r: String)
    ensures
        r@ == json_object_text(field_views(fields@)),
{
    let mut object = serde_json::Map::new();
    for (key, field) in fields.iter() {
        let value = match field {
            JsonField::Text(s) => serde_json::Value::from(s.as_str()),
            JsonField::Number(n) => serde_json::Value::from(*n),
            JsonField::Flag(b) => serde_json::Value::from(*b),
        };
        object.insert(key.clone(), value);
    }
    serde_json::Value::Object(object).to_string()
}

/// The reply that the bytes `body` hold, under the provider's member names.
pub open spec fn provider_envelope(body: Seq<u8>) -> Result<EnvelopeView, Seq<char>> {
    json_envelope(body, "success"@, "errors"@, "result"@, "id"@, "content"@)
}

/// The members of the payload that creates or updates a record, in the
/// order in which they are handed to the JSON writer.
pub open spec fn payload_fields(
    record_type: Seq<char>,
    name: Seq<char>,
    content: Seq<char>,
    ttl: u32,
    proxied: bool,
) -> Seq<(Seq<char>, FieldView)> {
    seq![
        ("type"@, FieldView::Text(record_type)),
        ("name"@, FieldView::Text(name)),
        ("content"@, FieldView::Text(content)),
        ("ttl"@, FieldView::Number(ttl)),
        ("proxied"@, FieldView::Flag(proxied)),
    ]
}

/// The JSON text of the payload that creates or updates a record.
pub open spec fn payload_text(
    record_type: Seq<char>,
    name: Seq<char>,
    content: Seq<char>,
    ttl: u32,
    proxied: bool,
) -> Seq<char> {
    json_object_text(payload_fields(record_type, name, content, ttl, proxied))
}

/// The request that asks for the records of `zone` with the given name and
/// type.
pub open spec fn lookup_request_of(
    zone: Seq<char>,
    name: Seq<char>,
    record_type: Seq<char>,
    token: Seq<char>,
) -> RequestView {
    RequestView {
        method: HttpMethod::Get,
        url: records_url(zone),
        authorization: bearer(token),
        query: seq![("name"@, name), ("type"@, record_type)],
        body: None,
        timeout_secs: PROVIDER_TIMEOUT_SECS,
    }
}

/// The request that creates a record in `zone`.
pub open spec fn create_request_of(
    zone: Seq<char>,
    name: Seq<char>,
    record_type: Seq<char>,
    token: Seq<char>,
    ip: Seq<char>,
    ttl: u32,
    proxied: bool,
) -> RequestView {
    RequestView {
        method: HttpMethod::Post,
        url: records_url(zone),
        authorization: bearer(token),
        query: Seq::empty(),
        body: Some(payload_text(record_type, name, ip, ttl, proxied)),
        timeout_secs: PROVIDER_TIMEOUT_SECS,
    }
}

/// The request that updates the record `id` of `zone`.
pub open spec fn update_request_of(
    zone: Seq<char>,
    id: Seq<char>,
    name: Seq<char>,
    record_type: Seq<char>,
    token: Seq<char>,
    ip: Seq<char>,
    ttl: u32,
    proxied: bool,
) -> RequestView {
    RequestView {
        method: HttpMethod::Put,
        url: record_url(zone, id),
        authorization: bearer(token),
        query: Seq::empty(),
        body: Some(payload_text(record_type, name, ip, ttl, proxied)),
        timeout_secs: PROVIDER_TIMEOUT_SECS,
    }
}

/// What a reply to a lookup says: the first record of its list, nothing
/// where the list is empty or missing, the provider's errors where the
/// success flag is not `true`.
pub open spec fn lookup_of(env: EnvelopeView) -> Result<Option<RecordView>, FaultView> {
    if env.success != Some(true) {
        Err(FaultView::Api(env.errors))
    } else {
        match env.records {
            Some(list) => if list.len() > 0 {
                Ok(Some(list[0]))
            } else {
                Ok(None)
            },
            None => Ok(None),
        }
    }
}

/// What a reply to a create or an update says: done exactly where the
/// success flag is `true`.
pub open spec fn write_of(env: EnvelopeView) -> Result<(), FaultView> {
    if env.success == Some(true) {
        Ok(())
    } else {
        Err(FaultView::Api(env.errors))
    }
}

/// The reply that an outcome holds, or why it holds none.
pub open spec fn envelope_of(outcome: OutcomeView) -> Result<EnvelopeView, FaultView> {
    match outcome {
        OutcomeView::Failed(m) => Err(FaultView::Transport(m)),
        OutcomeView::Body(body) => match provider_envelope(body) {
            Ok(env) => Ok(env),
            Err(m) => Err(FaultView::Malformed(m)),
        },
    }
}

/// What the outcome of a lookup says.
pub open spec fn lookup_reply(outcome: OutcomeView) -> Result<Option<RecordView>, FaultView> {
    match envelope_of(outcome) {
        Ok(env) => lookup_of(env),
        Err(f) => Err(f),
    }
}

/// What the outcome of a create or an update says.
pub open spec fn write_reply(outcome: OutcomeView) -> Result<(), FaultView> {
    match envelope_of(outcome) {
        Ok(env) => write_of(env),
        Err(f) => Err(f),
    }
}

/// The record that a lookup found, as a mathematical value.
pub open spec fn found_view(r: Result<Option<DnsRecord>, ProviderError>) -> Result<
    Option<RecordView>,
    FaultView,
> {
    match r {
        Ok(Some(rec)) => Ok(Some(rec@)),
        Ok(None) => Ok(None),
        Err(e) => Err(e@),
    }
}

/// The result of a create or an update, as a mathematical value.
pub open spec fn done_view(r: Result<(), ProviderError>) -> Result<(), FaultView> {
    match r {
        Ok(()) => Ok(()),
        Err(e) => Err(e@),
    }
}

impl FaultView {
    /// The text shown for this error.
    pub open spec fn text(self) -> Seq<char> {
        match self {
            FaultView::Transport(m) => m,
            FaultView::Malformed(m) => m,
            FaultView::Api(errors) => "Cloudflare API error: "@ + errors,
            FaultView::MissingRecordId => "DNS record has no id"@,
        }
    }
}

impl ProviderError {
    /// The text shown for this error.
    pub fn message(&self) -> (r: String)
        ensures
            r@ == self@.text(),
    {
        match self {
            ProviderError::Transport(m) => m.clone(),
            ProviderError::Malformed(m) => m.clone(),
            ProviderError::Api(errors) => {
                let mut out: String = "Cloudflare API error: ".to_owned();
                out.append(errors.as_str());
                out
            },
            ProviderError::MissingRecordId => "DNS record has no id".to_owned(),
        }
    }
}

/// The request that asks the provider for the records with the given name
/// and type.
pub fn lookup_request(zone_id: &str, record_name: &str, record_type: &str, api_token: &str) -> (r:
    ApiRequest)
    ensures
        r@ == lookup_request_of(zone_id@, record_name@, record_type@, api_token@),
{
    let mut url: String = "https://api.cloudflare.com/client/v4/zones/".to_owned();
    url.append(zone_id);
    url.append("/dns_records");
    let mut authorization: String = "Bearer ".to_owned();
    authorization.append(api_token);
    let mut query: Vec<(String, String)> = Vec::new();
    query.push(("name".to_owned(), record_name.to_owned()));
    query.push(("type".to_owned(), record_type.to_owned()));
    assert(pair_views(query@) =~= seq![("name"@, record_name@), ("type"@, record_type@)]);
    ApiRequest {
        method: HttpMethod::Get,
        url,
        authorization,
        query,
        body: None,
        timeout_secs: PROVIDER_TIMEOUT_SECS,
    }
}

/// The JSON text of the payload that creates or updates a record.
pub fn record_payload(record_type: &str, name: &str, content: &str, ttl: u32, proxied: bool) -> (r:
    String)
    ensures
        r@ == payload_text(record_type@, name@, content@, ttl, proxied),
{
    let mut fields: Vec<(String, JsonField)> = Vec::new();
    fields.push(("type".to_owned(), JsonField::Text(record_type.to_owned())));
    fields.push(("name".to_owned(), JsonField::Text(name.to_owned())));
    fields.push(("content".to_owned(), JsonField::Text(content.to_owned())));
    fields.push(("ttl".to_owned(), JsonField::Number(ttl)));
    fields.push(("proxied".to_owned(), JsonField::Flag(proxied)));
    assert(field_views(fields@) =~= payload_fields(record_type@, name@, content@, ttl, proxied));
    json_object(&fields)
}

/// The request that creates a record with the address `ip`.
pub fn create_request(
    zone_id: &str,
    record_name: &str,
    record_type: &str,
    api_token: &str,
    ip: &str,
    ttl: u32,
    proxy: bool,
) -> (r: ApiRequest)
    ensures
        r@ == create_request_of(
            zone_id@,
            record_name@,
            record_type@,
            api_token@,
            ip@,
            ttl,
            proxy,
        ),
{
    let mut url: String = "https://api.cloudflare.com/client/v4/zones/".to_owned();
    url.append(zone_id);
    url.append("/dns_records");
    let mut authorization: String = "Bearer ".to_owned();
    authorization.append(api_token);
    let body: String = record_payload(record_type, record_name, ip, ttl, proxy);
    let query: Vec<(String, String)> = Vec::new();
    assert(pair_views(query@) =~= Seq::<(Seq<char>, Seq<char>)>::empty());
    ApiRequest {
        method: HttpMethod::Post,
        url,
        authorization,
        query,
        body: Some(body),
        timeout_secs: PROVIDER_TIMEOUT_SECS,
    }
}

/// The request that gives the record `record_id` the address `ip`.
pub fn update_request(
    zone_id: &str,
    record_id: &str,
    record_name: &str,
    record_type: &str,
    api_token: &str,
    ip: &str,
    ttl: u32,
    proxy: bool,
) -> (r: ApiRequest)
    ensures
        r@ == update_request_of(
            zone_id@,
            record_id@,
            record_name@,
            record_type@,
            api_token@,
            ip@,
            ttl,
            proxy,
        ),
{
    let mut url: String = "https://api.cloudflare.com/client/v4/zones/".to_owned();
    url.append(zone_id);
    url.append("/dns_records");
    url.append("/");
    url.append(record_id);
    let mut authorization: String = "Bearer ".to_owned();
    authorization.append(api_token);
    let body: String = record_payload(record_type, record_name, ip, ttl, proxy);
    let query: Vec<(String, String)> = Vec::new();
    assert(pair_views(query@) =~= Seq::<(Seq<char>, Seq<char>)>::empty());
    ApiRequest {
        method: HttpMethod::Put,
        url,
        authorization,
        query,
        body: Some(body),
        timeout_secs: PROVIDER_TIMEOUT_SECS,
    }
}

/// Reads a reply to a lookup.
pub fn lookup_result(env: Envelope) -> (r: Result<Option<DnsRecord>, ProviderError>)
    ensures
        found_view(r) == lookup_of(env@),
{
    match env.success {
        Some(true) => {},
        _ => {
            return Err(ProviderError::Api(env.errors));
        },
    }
    match env.records {
        Some(mut list) => {
            if list.len() > 0 {
                let first: DnsRecord = list.swap_remove(0);
                Ok(Some(first))
            } else {
                Ok(None)
            }
        },
        None => Ok(None),
    }
}

/// Reads a reply to a create or an update.
pub fn write_result(env: Envelope) -> (r: Result<(), ProviderError>)
    ensures
        done_view(r) == write_of(env@),
{
    match env.success {
        Some(true) => Ok(()),
        _ => Err(ProviderError::Api(env.errors)),
    }
}

/// Reads the reply that an outcome holds.
pub fn read_envelope(outcome: HttpOutcome) -> (r: Result<Envelope, ProviderError>)
    ensures
        match r {
            Ok(env) => envelope_of(outcome@) == Ok::<EnvelopeView, FaultView>(env@),
            Err(e) => envelope_of(outcome@) == Err::<EnvelopeView, FaultView>(e@),
        },
{
    match outcome {
        HttpOutcome::Failed(m) => Err(ProviderError::Transport(m)),
        HttpOutcome::Body(body) => {
            match parse_envelope(body.as_slice(), "success", "errors", "result", "id", "content") {
                Ok(env) => Ok(env),
                Err(m) => Err(ProviderError::Malformed(m)),
            }
        },
    }
}

/// Reads the outcome of a lookup.
pub fn read_lookup(outcome: HttpOutcome) -> (r: Result<Option<DnsRecord>, ProviderError>)
    ensures
        found_view(r) == lookup_reply(outcome@),
{
    match read_envelope(outcome) {
        Ok(env) => lookup_result(env),
        Err(e) => Err(e),
    }
}

/// Reads the outcome of a create or an update.
pub fn read_write(outcome: HttpOutcome) -> (r: Result<(), ProviderError>)
    ensures
        done_view(r) == write_reply(outcome@),
{
    match read_envelope(outcome) {
        Ok(env) => write_result(env),
        Err(e) => Err(e),
    }
}

} // verus!
