//! The DNS-over-HTTPS resolver as far as it is computation: the queries, the
//! request URLs, and the choice of an address from a response.

use crate::addr::{address_of, IpAddress, SocketAddress};
use crate::config::AuxConfig;
use vstd::array::array_as_slice;
use vstd::prelude::*;

verus! {

/// The record types that the resolver asks for and reads.
#[derive(Debug, Clone, Copy, PartialEq, Eq, Structural)]
pub enum RecordKind {
    A,
    AAAA,
    /// A record type that is known and holds no address.
    Other,
}

/// One answer of a DNS response: the type of the record, none where it is
/// not known, and the octets that its data reads as an address of each
/// family, none where the data is too short for one.
#[derive(Debug, Clone, Copy, PartialEq, Eq)]
pub struct DnsAnswer {
    pub kind: Option<RecordKind>,
    pub ipv4: Option<[u8; 4]>,
    pub ipv6: Option<[u8; 16]>,
}

/// A DNS response, as far as the resolver reads it.
#[derive(Debug, Clone, PartialEq)]
pub struct DnsReply {
    /// The message is a reply and its response code is zero.
    pub successful: bool,
    pub answers: Vec<DnsAnswer>,
}

/// A DNS response over sequences.
pub ghost struct DnsReplyView {
    pub successful: bool,
    pub answers: Seq<DnsAnswer>,
}

impl View for DnsReply {
    type V = DnsReplyView;

    open spec fn view(&self) -> DnsReplyView {
        DnsReplyView { successful: self.successful, answers: self.answers@ }
    }
}

/// Why a name could not be resolved.
#[derive(Debug, Clone, Copy, PartialEq, Eq, Structural)]
pub enum DnsError {
    /// A label of the name is longer than a DNS message can hold.
    NameTooLong,
    /// The response is no DNS message.
    Malformed,
    /// The response is no successful reply.
    BadRecord,
    /// The data of an address record is too short for an address.
    InvalidData,
    /// No answer holds an address that can be used.
    NoAddress,
}

/// What follows the transaction id in the query that `rusdig` builds for a
/// name and a record type; `None` where it builds none.
pub uninterp spec fn dns_query_tail(name: Seq<char>, record_type: u16) -> Option<Seq<u8>>;

/// What `rusdig` reads a response as; `None` where it is no DNS message.
pub uninterp spec fn dns_reply_of(bytes: Seq<u8>) -> Option<DnsReplyView>;

/// The text that the URL-safe base64 alphabet without padding gives the bytes.
pub uninterp spec fn base64_url_text(bytes: Seq<u8>) -> Seq<char>;

/// `rusdig::Query::for_name` and `Query::as_bytes` on the result: the query
/// for an address record of a name. The first two bytes are a transaction id
/// that is drawn at random; what follows them is a function of the name and
/// the record type. There is no query where a label of the name is too long.
#[verifier::external_body]
pub(crate) fn dns_query_bytes(name: &str, want_ipv6: bool) -> (r: Option<Vec<u8>>)
    ensures
        match r {
            Some(bytes) => bytes@.len() >= 2 && dns_query_tail(
                name@,
                if want_ipv6 {
                    28u16
                } else {
                    1u16
                },
            ) == Some(bytes@.skip(2)),
            None => dns_query_tail(
                name@,
                if want_ipv6 {
                    28u16
                } else {
                    1u16
                },
            ) is None,
        },
{
    let record = if want_ipv6 {
        rusdig::RecordType::AAAA
    } else {
        rusdig::RecordType::A
    };
    rusdig::Query::for_name(name, record).as_bytes().ok()
}

/// `rusdig::Query::from_bytes`, with what the resolver reads of the result:
/// whether the flags say success, and of each answer its type and the octets
/// of the addresses that `data_as_ipv4` and `data_as_ipv6` read its data as.
#[verifier::external_body]
pub(crate) fn decode_dns_reply(bytes: &[u8]) -> (r: Option<DnsReply>)
    ensures
        match r {
            Some(reply) => dns_reply_of(bytes@) == Some(reply@),
            None => dns_reply_of(bytes@) is None,
        },
{
    let query = rusdig::Query::from_bytes(bytes).ok()?;
    let kind = |record| match record {
        rusdig::RecordType::A => RecordKind::A,
        rusdig::RecordType::AAAA => RecordKind::AAAA,
        _ => RecordKind::Other,
    };
    let read = |answer: &rusdig::QueryAnswer| DnsAnswer {
        kind: answer.entry_type().map(kind),
        ipv4: answer.data_as_ipv4().ok().map(|ip| ip.octets()),
        ipv6: answer.data_as_ipv6().ok().map(|ip| ip.octets()),
    };
    let answers = query.resource_answers.iter().map(read).collect();
    Some(DnsReply { successful: query.flags.successful(), answers })
}

/// `Engine::encode` of the `base64` crate with the engine `URL_SAFE_NO_PAD`.
/// The length is bounded so that the size of the text can be computed.
#[verifier::external_body]
pub(crate) fn base64_url(bytes: &[u8]) -> (text: String)
    requires
        bytes@.len() <= 0x3000_0000,
    ensures
        text@ == base64_url_text(bytes@),
{
    base64::Engine::encode(&base64::engine::general_purpose::URL_SAFE_NO_PAD, bytes)
}

/// `iprobe::ipv6`: whether this host can open an IPv6 socket and bind it to
/// the loopback address. The answer is the host's, and nothing is known of it.
#[verifier::external_body]
pub(crate) fn host_has_ipv6() -> bool {
    iprobe::ipv6()
}

/// The text with every `{}` replaced by `query`.
pub open spec fn filled(template: Seq<char>, query: Seq<char>) -> Seq<char>
    decreases template.len(),
{
    if template.len() == 0 {
        template
    } else if template.len() >= 2 && template[0] == '{' && template[1] == '}' {
        query + filled(template.skip(2), query)
    } else {
        seq![template[0]] + filled(template.skip(1), query)
    }
}

/// `str::replace` with the pattern `{}`: the template with every placeholder,
/// from the left, replaced by the query.
#[verifier::external_body]
pub(crate) fn fill_template(template: &str, query: &str) -> (url: String)
    ensures
        url@ == filled(template@, query@),
{
    template.replace("{}", query)
}

/// A query: the two bytes of a transaction id, and what follows them.
pub open spec fn with_id(high: u8, low: u8, tail: Seq<u8>) -> Seq<u8> {
    Seq::<u8>::empty().push(high).push(low) + tail
}

/// The text is a query for the name and the record type: the base64 text of
/// a transaction id and what `rusdig` lets follow it.
pub open spec fn is_query_for(text: Seq<char>, name: Seq<char>, record_type: u16) -> bool {
    exists|high: u8, low: u8|
        dns_query_tail(name, record_type) is Some && text == base64_url_text(
            #[trigger] with_id(high, low, dns_query_tail(name, record_type)->0),
        )
}

/// There is a query for the name and the record type, and it is short enough
/// to be encoded.
pub open spec fn query_fits(name: Seq<char>, record_type: u16) -> bool {
    dns_query_tail(name, record_type) is Some && dns_query_tail(name, record_type)->0.len() + 2
        <= MAX_QUERY_LEN
}

/// The longest query that is encoded.
pub const MAX_QUERY_LEN: usize = 0x3000_0000;

/// The query for the name and one record type, as base64 text, where the
/// query was built.
pub fn encode_query(bytes: &Vec<u8>) -> (r: Option<String>)
    ensures
        match r {
            Some(text) => bytes@.len() <= MAX_QUERY_LEN && text@ == base64_url_text(bytes@),
            None => bytes@.len() > MAX_QUERY_LEN,
        },
{
    if bytes.len() <= MAX_QUERY_LEN {
        Some(base64_url(bytes.as_slice()))
    } else {
        None
    }
}

/// The two queries for a name, for its IPv4 and for its IPv6 addresses, each
/// as base64 text. A name with a label that is too long, or a query that is
/// too long to be encoded, is an error.
pub fn create_queries(domain: &str) -> (r: Result<Vec<String>, DnsError>)
    ensures
        match r {
            Ok(queries) => queries@.len() == 2 && is_query_for(queries@[0]@, domain@, 1u16)
                && is_query_for(queries@[1]@, domain@, 28u16),
            Err(e) => e == DnsError::NameTooLong,
        },
        r is Err <==> !query_fits(domain@, 1u16) || !query_fits(domain@, 28u16),
{
    let mut queries: Vec<String> = Vec::new();
    let first = match dns_query_bytes(domain, false) {
        Some(bytes) => bytes,
        None => {
            return Err(DnsError::NameTooLong);
        },
    };
    let second = match dns_query_bytes(domain, true) {
        Some(bytes) => bytes,
        None => {
            return Err(DnsError::NameTooLong);
        },
    };
    let first_text = match encode_query(&first) {
        Some(text) => text,
        None => {
            return Err(DnsError::NameTooLong);
        },
    };
    let second_text = match encode_query(&second) {
        Some(text) => text,
        None => {
            return Err(DnsError::NameTooLong);
        },
    };
    proof {
        assert(first@ =~= with_id(first@[0], first@[1], dns_query_tail(domain@, 1u16)->0));
        assert(second@ =~= with_id(second@[0], second@[1], dns_query_tail(domain@, 28u16)->0));
        assert(is_query_for(first_text@, domain@, 1u16));
        assert(is_query_for(second_text@, domain@, 28u16));
    }
    queries.push(first_text);
    queries.push(second_text);
    Ok(queries)
}

/// The URL is the one that probes an endpoint: its template filled with a
/// query for the IPv4 addresses of `discord.com`.
pub open spec fn is_probe_url(url: Seq<char>, server: Seq<char>) -> bool {
    exists|query: Seq<char>|
        is_query_for(query, "discord.com"@, 1u16) && url == #[trigger] filled(server, query)
}

/// The URL that probes an endpoint at startup. It is owed wherever the two
/// queries for `discord.com` can be built and encoded.
pub fn probe_url(server: &str) -> (r: Result<String, DnsError>)
    ensures
        match r {
            Ok(url) => is_probe_url(url@, server@),
            Err(e) => e == DnsError::NameTooLong,
        },
        r is Err <==> !query_fits("discord.com"@, 1u16) || !query_fits("discord.com"@, 28u16),
{
    match create_queries("discord.com") {
        Ok(queries) => {
            let url = fill_template(server, queries[0].as_str());
            assert(url@ == filled(server@, queries@[0]@));
            Ok(url)
        },
        Err(e) => Err(e),
    }
}

/// The address that an answer holds: none for a record of another type, an
/// error for an address record whose data is too short for an address.
pub open spec fn answer_ip(answer: DnsAnswer) -> Result<Option<IpAddress>, DnsError> {
    match answer.kind {
        None => Ok(None),
        Some(RecordKind::A) => match answer.ipv4 {
            Some(octets) => address_or_error(octets@),
            None => Err(DnsError::InvalidData),
        },
        Some(RecordKind::AAAA) => match answer.ipv6 {
            Some(octets) => address_or_error(octets@),
            None => Err(DnsError::InvalidData),
        },
        Some(RecordKind::Other) => Ok(None),
    }
}

/// The address with the given octets; an error where they are no address.
pub open spec fn address_or_error(octets: Seq<u8>) -> Result<Option<IpAddress>, DnsError> {
    match address_of(octets) {
        Some(ip) => Ok(Some(ip)),
        None => Err(DnsError::InvalidData),
    }
}

/// The first error among the answers from `i` on.
pub open spec fn first_error(answers: Seq<DnsAnswer>, i: int) -> Option<DnsError>
    decreases answers.len() - i,
{
    if i < 0 || i >= answers.len() {
        None
    } else {
        match answer_ip(answers[i]) {
            Err(e) => Some(e),
            Ok(_) => first_error(answers, i + 1),
        }
    }
}

/// The first address of the given family among the answers from `i` on.
pub open spec fn first_address(answers: Seq<DnsAnswer>, i: int, want_ipv6: bool) -> Option<
    IpAddress,
>
    decreases answers.len() - i,
{
    if i < 0 || i >= answers.len() {
        None
    } else {
        match answer_ip(answers[i]) {
            Ok(Some(ip)) => if (ip is V6) == want_ipv6 {
                Some(ip)
            } else {
                first_address(answers, i + 1, want_ipv6)
            },
            _ => first_address(answers, i + 1, want_ipv6),
        }
    }
}

/// The address that a response resolves to, at port 443: on a host with IPv6
/// the first IPv6 address where there is one, else the first IPv4 address.
pub open spec fn resolved(reply: DnsReplyView, ipv6_supported: bool) -> Result<
    SocketAddress,
    DnsError,
> {
    if !reply.successful {
        Err(DnsError::BadRecord)
    } else if first_error(reply.answers, 0) is Some {
        Err(first_error(reply.answers, 0)->0)
    } else if ipv6_supported && first_address(reply.answers, 0, true) is Some {
        Ok(SocketAddress { ip: first_address(reply.answers, 0, true)->0, port: 443 })
    } else {
        match first_address(reply.answers, 0, false) {
            Some(ip) => Ok(SocketAddress { ip, port: 443 }),
            None => Err(DnsError::NoAddress),
        }
    }
}

/// The address that the bytes of a response resolve to.
pub open spec fn resolved_bytes(bytes: Seq<u8>, ipv6_supported: bool) -> Result<
    SocketAddress,
    DnsError,
> {
    match dns_reply_of(bytes) {
        Some(reply) => resolved(reply, ipv6_supported),
        None => Err(DnsError::Malformed),
    }
}

/// The address that an answer holds.
fn ip_of_answer(answer: &DnsAnswer) -> (r: Result<Option<IpAddress>, DnsError>)
    ensures
        r == answer_ip(*answer),
{
    match answer.kind {
        None => Ok(None),
        Some(RecordKind::A) => match &answer.ipv4 {
            Some(octets) => address_from(array_as_slice(octets)),
            None => Err(DnsError::InvalidData),
        },
        Some(RecordKind::AAAA) => match &answer.ipv6 {
            Some(octets) => address_from(array_as_slice(octets)),
            None => Err(DnsError::InvalidData),
        },
        Some(RecordKind::Other) => Ok(None),
    }
}

/// The address with the given octets; an error where they are no address.
fn address_from(octets: &[u8]) -> (r: Result<Option<IpAddress>, DnsError>)
    ensures
        r == address_or_error(octets@),
{
    match IpAddress::from_octets(octets) {
        Some(ip) => Ok(Some(ip)),
        None => Err(DnsError::InvalidData),
    }
}

/// Chooses the address that a response resolves to.
pub fn select_address(reply: &DnsReply, ipv6_supported: bool) -> (r: Result<
    SocketAddress,
    DnsError,
>)
    ensures
        r == resolved(reply@, ipv6_supported),
{
    if !reply.successful {
        return Err(DnsError::BadRecord);
    }
    let mut first_v4: Option<IpAddress> = None;
    let mut first_v6: Option<IpAddress> = None;
    let mut i: usize = 0;
    while i < reply.answers.len()
        invariant
            i <= reply.answers@.len(),
            reply.successful,
            first_error(reply.answers@, 0) == first_error(reply.answers@, i as int),
            first_address(reply.answers@, 0, false) == match first_v4 {
                Some(ip) => Some(ip),
                None => first_address(reply.answers@, i as int, false),
            },
            first_address(reply.answers@, 0, true) == match first_v6 {
                Some(ip) => Some(ip),
                None => first_address(reply.answers@, i as int, true),
            },
        decreases reply.answers@.len() - i,
    {
        match ip_of_answer(&reply.answers[i]) {
            Err(e) => {
                return Err(e);
            },
            Ok(Some(ip)) => {
                if ip.is_ipv4() {
                    if first_v4.is_none() {
                        first_v4 = Some(ip);
                    }
                } else {
                    if first_v6.is_none() {
                        first_v6 = Some(ip);
                    }
                }
            },
            Ok(None) => {},
        }
        i += 1;
    }
    if ipv6_supported {
        match first_v6 {
            Some(ip) => {
                return Ok(SocketAddress::new(ip, 443));
            },
            None => {},
        }
    }
    match first_v4 {
        Some(ip) => Ok(SocketAddress::new(ip, 443)),
        None => Err(DnsError::NoAddress),
    }
}

/// The address that a response resolves to, for a host of which it is known
/// whether it has IPv6.
pub fn parse_dns_response_with(response_bytes: &[u8], ipv6_supported: bool) -> (r: Result<
    SocketAddress,
    DnsError,
>)
    ensures
        r == resolved_bytes(response_bytes@, ipv6_supported),
{
    match decode_dns_reply(response_bytes) {
        Some(reply) => select_address(&reply, ipv6_supported),
        None => Err(DnsError::Malformed),
    }
}

/// The address that a response resolves to on this host: what it resolves to
/// with IPv6 where the host has it, and without where it has not.
pub fn parse_dns_response(response_bytes: &[u8]) -> (r: Result<SocketAddress, DnsError>)
    ensures
        r == resolved_bytes(response_bytes@, true) || r == resolved_bytes(response_bytes@, false),
{
    parse_dns_response_with(response_bytes, host_has_ipv6())
}

/// Whether a response to the probe shows that an endpoint works: it is a DNS
/// message.
pub fn probe_accepts(response_bytes: &[u8]) -> (r: bool)
    ensures
        r == (dns_reply_of(response_bytes@) is Some),
{
    decode_dns_reply(response_bytes).is_some()
}

/// The URLs that the queries are sent to: for each endpoint in order, each
/// query in order.
pub fn request_urls(servers: &Vec<String>, queries: &Vec<String>) -> (urls: Vec<String>)
    ensures
        urls@.len() == servers@.len() * queries@.len(),
        forall|i: int, j: int|
            0 <= i < servers@.len() && 0 <= j < queries@.len() ==> (#[trigger] urls@[i
                * queries@.len() + j])@ == filled(servers@[i]@, queries@[j]@),
{
    let mut urls: Vec<String> = Vec::new();
    let m: usize = queries.len();
    let mut i: usize = 0;
    while i < servers.len()
        invariant
            i <= servers@.len(),
            m == queries@.len(),
            urls@.len() == i * m,
            forall|a: int, b: int|
                0 <= a < i && 0 <= b < m ==> (#[trigger] urls@[a * m + b])@ == filled(
                    servers@[a]@,
                    queries@[b]@,
                ),
        decreases servers@.len() - i,
    {
        let mut j: usize = 0;
        while j < m
            invariant
                i < servers@.len(),
                j <= m,
                m == queries@.len(),
                urls@.len() == i * m + j,
                forall|a: int, b: int|
                    0 <= a < i && 0 <= b < m ==> (#[trigger] urls@[a * m + b])@ == filled(
                        servers@[a]@,
                        queries@[b]@,
                    ),
                forall|b: int|
                    0 <= b < j ==> (#[trigger] urls@[i * m + b])@ == filled(
                        servers@[i as int]@,
                        queries@[b]@,
                    ),
            decreases m - j,
        {
            let ghost before = urls@;
            urls.push(fill_template(servers[i].as_str(), queries[j].as_str()));
            proof {
                assert forall|a: int, b: int| 0 <= a < i && 0 <= b < m implies (
                #[trigger] urls@[a * m + b])@ == filled(servers@[a]@, queries@[b]@) by {
                    assert(a * m + b < i * m) by (nonlinear_arith)
                        requires
                            0 <= a < i,
                            0 <= b < m,
                    ;
                    assert(urls@[a * m + b] == before[a * m + b]);
                }
                assert forall|b: int| 0 <= b < j + 1 implies (#[trigger] urls@[i * m + b])@
                    == filled(servers@[i as int]@, queries@[b]@) by {
                    if b < j {
                        assert(urls@[i * m + b] == before[i * m + b]);
                    }
                }
            }
            j += 1;
        }
        proof {
            assert((i + 1) * m == i * m + m) by (nonlinear_arith);
            assert forall|a: int, b: int| 0 <= a < i + 1 && 0 <= b < m implies (
            #[trigger] urls@[a * m + b])@ == filled(servers@[a]@, queries@[b]@) by {
                if a == i {
                }
            }
        }
        i += 1;
    }
    urls
}

/// The response shows that the endpoint works.
pub open spec fn answered(response: Option<Vec<u8>>) -> bool {
    match response {
        Some(bytes) => dns_reply_of(bytes@) is Some,
        None => false,
    }
}

/// Of the first `n` endpoints, those that answered the probe, in order.
pub open spec fn working_of(servers: Seq<String>, responses: Seq<Option<Vec<u8>>>, n: int) -> Seq<
    Seq<char>,
>
    decreases n,
{
    if n <= 0 {
        Seq::empty()
    } else if answered(responses[n - 1]) {
        working_of(servers, responses, n - 1).push(servers[n - 1]@)
    } else {
        working_of(servers, responses, n - 1)
    }
}

/// The texts of a list of strings.
pub open spec fn texts(list: Seq<String>) -> Seq<Seq<char>> {
    Seq::new(list.len(), |i: int| list[i]@)
}

/// The endpoints that answered the probe: those whose response is a DNS
/// message, in the order of the configuration. `responses` holds for each
/// endpoint what it sent back, or nothing where the request failed.
pub fn working_servers(servers: &Vec<String>, responses: &Vec<Option<Vec<u8>>>) -> (working: Vec<
    String,
>)
    requires
        responses@.len() == servers@.len(),
    ensures
        texts(working@) == working_of(servers@, responses@, servers@.len() as int),
{
    let mut working: Vec<String> = Vec::new();
    let mut i: usize = 0;
    assert(texts(working@) =~= working_of(servers@, responses@, 0));
    while i < servers.len()
        invariant
            i <= servers@.len(),
            responses@.len() == servers@.len(),
            texts(working@) == working_of(servers@, responses@, i as int),
        decreases servers@.len() - i,
    {
        let ghost before = texts(working@);
        let accepted = match &responses[i] {
            Some(bytes) => probe_accepts(bytes.as_slice()),
            None => false,
        };
        if accepted {
            working.push(servers[i].clone());
            assert(texts(working@) =~= before.push(servers@[i as int]@));
        }
        i += 1;
    }
    working
}

/// The resolver.
pub struct DOHResolver();

/// How a name is to be resolved.
#[derive(Debug, Clone, PartialEq)]
pub struct ResolvePlan {
    /// Ask the system resolver first, and take its answer where it has one.
    pub system_first: bool,
    /// The URLs to ask at once; the first response that resolves wins.
    pub urls: Vec<String>,
}

impl DOHResolver {
    /// Plans the resolution of a domain: the system resolver comes first
    /// where the integrated resolver is switched off, and the queries for
    /// both families go to every endpoint that works. A name with a label
    /// that is too long, or too long to be asked for, is an error.
    pub fn doh_resolver(config: &AuxConfig, working: &Vec<String>, domain: &str) -> (r: Result<
        ResolvePlan,
        DnsError,
    >)
        ensures
            match r {
                Ok(plan) => plan.system_first == !config.dns_options.integrated_doh_enabled
                    && plan.urls@.len() == working@.len() * 2 && forall|i: int|
                    0 <= i < working@.len() ==> is_request_for(
                        (#[trigger] plan.urls@[i * 2])@,
                        working@[i]@,
                        domain@,
                        1u16,
                    ) && is_request_for(plan.urls@[i * 2 + 1]@, working@[i]@, domain@, 28u16),
                Err(e) => e == DnsError::NameTooLong,
            },
            r is Err <==> !query_fits(domain@, 1u16) || !query_fits(domain@, 28u16),
    {
        match create_queries(domain) {
            Err(e) => Err(e),
            Ok(queries) => {
                let urls = request_urls(working, &queries);
                assert forall|i: int| 0 <= i < working@.len() implies is_request_for(
                    (#[trigger] urls@[i * 2])@,
                    working@[i]@,
                    domain@,
                    1u16,
                ) && is_request_for(urls@[i * 2 + 1]@, working@[i]@, domain@, 28u16) by {
                    assert(urls@[i * 2 + 0]@ == filled(working@[i]@, queries@[0]@));
                    assert(urls@[i * 2 + 1]@ == filled(working@[i]@, queries@[1]@));
                }
                Ok(ResolvePlan { system_first: !config.dns_options.integrated_doh_enabled, urls })
            },
        }
    }
}

/// The URL asks the endpoint for the records of one type of the name.
pub open spec fn is_request_for(
    url: Seq<char>,
    server: Seq<char>,
    name: Seq<char>,
    record_type: u16,
) -> bool {
    exists|query: Seq<char>|
        is_query_for(query, name, record_type) && url == #[trigger] filled(server, query)
}

} // verus!
