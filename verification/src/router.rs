//! The router: which rule applies to a request, a destination or a server
//! name, and what it asks for.
//!
//! Rules match by glob. What a glob with a path separator or a recursive
//! wildcard (`**`) matches depends on the path conventions of the platform:
//! the decisions are stated over the outcomes of the matches, rule by rule,
//! and the outcome is tied to glob and text wherever it depends on them alone.

use crate::addr::{ipv4_of_text, parse_ipv4, IpAddress, SocketAddress};
use crate::blockmarker::BlockMarker;
use crate::bytes::copy_all;
use crate::config::{AuxConfig, RouterRule, RouterRuleScope, RouterRuleType};
use crate::socks::{parsed_request, Destination, IpParser};
use crate::text::{
    decode_lossy, find_char, has_char, head_is, head_word, in_comma_list, list_holds, tail_words,
    utf8_lossy,
};
use vstd::prelude::*;

verus! {

/// Whether the glob `pattern` matches `text`; `None` where the pattern does
/// not compile.
pub uninterp spec fn glob_match(pattern: Seq<char>, text: Seq<char>) -> Option<bool>;

/// Whether the network that `network` names in CIDR notation holds the address
/// with the given octets; `None` where the text names no network.
pub uninterp spec fn cidr_membership(network: Seq<char>, octets: Seq<u8>) -> Option<bool>;

/// The pattern holds no path separator and no two stars side by side: what
/// it matches does not depend on what the platform takes for a path
/// separator.
pub open spec fn portable_glob(pattern: Seq<char>) -> bool {
    &&& forall|i: int|
        0 <= i < pattern.len() ==> #[trigger] pattern[i] != '/' && pattern[i] != '\\'
    &&& forall|i: int|
        0 <= i && i + 1 < pattern.len() ==> !(#[trigger] pattern[i] == '*' && pattern[i + 1] == '*')
}

/// `glob::Pattern::new` and `Pattern::matches` on the result: compiles the
/// pattern and matches the text against it with the default options. For a
/// pattern without a path separator and without a recursive wildcard the
/// outcome is a function of pattern and text alone; of any other pattern
/// nothing is claimed.
#[verifier::external_body]
pub(crate) fn glob_matches(pattern: &str, text: &str) -> (r: Option<bool>)
    ensures
        portable_glob(pattern@) ==> r == glob_match(pattern@, text@),
{
    match glob::Pattern::new(pattern) {
        Ok(compiled) => Some(compiled.matches(text)),
        Err(_) => None,
    }
}

/// `IpNetwork::from_str` and `IpNetwork::contains` on the result: parses the
/// text as a network in CIDR notation and says whether the address lies in it.
#[verifier::external_body]
pub(crate) fn cidr_contains(network: &str, ip: &IpAddress) -> (r: Option<bool>)
    ensures
        r == cidr_membership(network@, ip.octets_spec()),
{
    let parsed = network.parse::<ipnetwork::IpNetwork>().ok()?;
    Some(
        match *ip {
            IpAddress::V4(a, b, c, d) => parsed.contains([a, b, c, d].into()),
            IpAddress::V6(a, b, c, d, e, f, g, h, i, j, k, l, m, n, o, p) => parsed.contains(
                [a, b, c, d, e, f, g, h, i, j, k, l, m, n, o, p].into(),
            ),
        },
    )
}

/// The router.
pub struct Router();

/// What the router makes of a request before it is resolved.
#[derive(Debug, Clone, PartialEq)]
pub enum RouterInterjectionStatus {
    /// Resolve and connect as asked.
    Allow,
    /// A FakeDNS rule resolved the name: connect to this destination.
    AutoResolved(IpParser),
}

/// What is wrong with a rule that a decision came to depend on.
#[derive(Debug, Clone, Copy, PartialEq, Eq, Structural)]
pub enum RouterError {
    /// The request could not be parsed.
    MalformedRequest,
    /// The target of a FakeDNS rule is no IP address.
    BadFakeDnsTarget,
    /// The network of a `cidr` rule is no network in CIDR notation.
    BadCidr,
    /// The glob of a rule does not compile.
    BadPattern,
    /// A rule asks for the connection to be refused.
    Blocked,
}

/// How an outbound connection is to be made.
#[derive(Debug, Clone, PartialEq)]
pub enum RouteDecision {
    /// Connect to the destination itself.
    Direct,
    /// Chain through the upstream SOCKS5 proxy at this `host:port`.
    Socks5(String),
    /// Refuse the connection.
    Block,
}

/// A route over sequences.
pub ghost enum Route {
    Direct,
    Socks5(Seq<char>),
    Block,
}

impl View for RouteDecision {
    type V = Route;

    open spec fn view(&self) -> Route {
        match *self {
            RouteDecision::Direct => Route::Direct,
            RouteDecision::Socks5(proxy) => Route::Socks5(proxy@),
            RouteDecision::Block => Route::Block,
        }
    }
}

/// What the action text of a rule asks for.
pub ghost enum RuleAction {
    Socks5(Seq<char>),
    Block,
    /// A verb that is not known, or no proxy behind `socks5`: the rule is
    /// passed over.
    Skip,
}

/// What the action text of a rule asks for: `block`, with or without words
/// behind it, or `socks5` and the proxy behind a space.
pub open spec fn rule_action(action: Seq<char>) -> RuleAction {
    if head_word(action) == "block"@ {
        RuleAction::Block
    } else if head_word(action) == "socks5"@ {
        match tail_words(action) {
            Some(proxy) => RuleAction::Socks5(proxy),
            None => RuleAction::Skip,
        }
    } else {
        RuleAction::Skip
    }
}

/// The rule is conditional on the stall marker: its match text starts with
/// the word `if16kb`.
pub open spec fn is_16kb_rule(rule_match: Seq<char>) -> bool {
    head_word(rule_match) == "if16kb"@
}

/// The rule names a network: its match text starts with the word `cidr`.
pub open spec fn is_cidr_rule(rule_match: Seq<char>) -> bool {
    head_word(rule_match) == "cidr"@
}

/// A conditional rule lets the server name through: the name is in the
/// comma-separated list behind `if16kb`.
pub open spec fn sni_exempt(rule_match: Seq<char>, sni: Seq<char>) -> bool {
    match tail_words(rule_match) {
        Some(list) => in_comma_list(list, sni),
        None => false,
    }
}

/// The outcome of the match for rule `i`; where none was recorded, the glob
/// counts as one that does not compile.
pub open spec fn outcome_at(outcomes: Seq<Option<bool>>, i: int) -> Option<bool> {
    if 0 <= i < outcomes.len() {
        outcomes[i]
    } else {
        None
    }
}

/// The rule is of the given type and scope.
pub open spec fn in_scope(rule: RouterRule, rule_type: RouterRuleType, scope: RouterRuleScope) -> bool {
    rule.rule_type == rule_type && rule.scope == scope
}

/// The outcomes are those of matching `text` against the glob of each rule of
/// the given type and scope: one outcome for each rule by its position, and
/// for every glob whose outcome depends on glob and text alone that outcome.
pub open spec fn faithful(
    rules: Seq<RouterRule>,
    rule_type: RouterRuleType,
    scope: RouterRuleScope,
    text: Seq<char>,
    outcomes: Seq<Option<bool>>,
) -> bool {
    &&& outcomes.len() == rules.len()
    &&& forall|i: int|
        0 <= i < rules.len() && in_scope(rules[i], rule_type, scope) && portable_glob(
            rules[i].rule_match@,
        ) ==> #[trigger] outcomes[i] == glob_match(rules[i].rule_match@, text)
}

/// Whether an IP rule applies to a destination: a conditional rule where the
/// destination is marked and the server name is not exempt, a network rule
/// where the address lies in the network, any other rule where its glob
/// matched the address as text.
pub open spec fn ip_rule_applies(
    rule_match: Seq<char>,
    blocked: bool,
    ip: IpAddress,
    sni: Seq<char>,
    matched: Option<bool>,
) -> Result<bool, RouterError> {
    if is_16kb_rule(rule_match) {
        Ok(blocked && !sni_exempt(rule_match, sni))
    } else if is_cidr_rule(rule_match) {
        match tail_words(rule_match) {
            Some(network) => match cidr_membership(network, ip.octets_spec()) {
                Some(inside) => Ok(inside),
                None => Err(RouterError::BadCidr),
            },
            None => Err(RouterError::BadCidr),
        }
    } else {
        match matched {
            Some(matched) => Ok(matched),
            None => Err(RouterError::BadPattern),
        }
    }
}

/// The rule is a forwarding rule for destinations.
pub open spec fn is_ip_rule(rule: RouterRule) -> bool {
    in_scope(rule, RouterRuleType::Forward, RouterRuleScope::IP)
}

/// The route for a destination, by the rules from `i` on: the first IP rule
/// that applies and asks for something decides.
pub open spec fn route_from(
    rules: Seq<RouterRule>,
    i: int,
    blocked: bool,
    ip: IpAddress,
    sni: Seq<char>,
    outcomes: Seq<Option<bool>>,
) -> Result<Route, RouterError>
    decreases rules.len() - i,
{
    if i < 0 || i >= rules.len() {
        Ok(Route::Direct)
    } else if !is_ip_rule(rules[i]) {
        route_from(rules, i + 1, blocked, ip, sni, outcomes)
    } else {
        match ip_rule_applies(rules[i].rule_match@, blocked, ip, sni, outcome_at(outcomes, i)) {
            Err(e) => Err(e),
            Ok(false) => route_from(rules, i + 1, blocked, ip, sni, outcomes),
            Ok(true) => match rule_action(rules[i].action@) {
                RuleAction::Socks5(proxy) => Ok(Route::Socks5(proxy)),
                RuleAction::Block => Ok(Route::Block),
                RuleAction::Skip => route_from(rules, i + 1, blocked, ip, sni, outcomes),
            },
        }
    }
}

/// The rule is passed over: it is no IP rule, or does not apply, or asks for
/// nothing.
pub open spec fn ip_rule_passes(
    rule: RouterRule,
    blocked: bool,
    ip: IpAddress,
    sni: Seq<char>,
    matched: Option<bool>,
) -> bool {
    !is_ip_rule(rule) || ip_rule_applies(rule.rule_match@, blocked, ip, sni, matched) == Ok::<
        bool,
        RouterError,
    >(false) || (ip_rule_applies(rule.rule_match@, blocked, ip, sni, matched) == Ok::<
        bool,
        RouterError,
    >(true) && rule_action(rule.action@) is Skip)
}

/// Rules are taken in the order in which they are declared: where every rule
/// before `k` is passed over and rule `k` applies and asks for a route, that
/// route is taken, whatever follows.
pub proof fn lemma_first_match_decides(
    rules: Seq<RouterRule>,
    k: int,
    blocked: bool,
    ip: IpAddress,
    sni: Seq<char>,
    outcomes: Seq<Option<bool>>,
)
    requires
        0 <= k < rules.len(),
        forall|j: int|
            0 <= j < k ==> ip_rule_passes(
                #[trigger] rules[j],
                blocked,
                ip,
                sni,
                outcome_at(outcomes, j),
            ),
        is_ip_rule(rules[k]),
        ip_rule_applies(rules[k].rule_match@, blocked, ip, sni, outcome_at(outcomes, k)) == Ok::<
            bool,
            RouterError,
        >(true),
        !(rule_action(rules[k].action@) is Skip),
    ensures
        route_from(rules, 0, blocked, ip, sni, outcomes) == match rule_action(rules[k].action@) {
            RuleAction::Socks5(proxy) => Ok::<Route, RouterError>(Route::Socks5(proxy)),
            _ => Ok(Route::Block),
        },
{
    lemma_route_skips(rules, 0, k, blocked, ip, sni, outcomes);
}

/// Rules that are passed over do not change the route.
proof fn lemma_route_skips(
    rules: Seq<RouterRule>,
    i: int,
    k: int,
    blocked: bool,
    ip: IpAddress,
    sni: Seq<char>,
    outcomes: Seq<Option<bool>>,
)
    requires
        0 <= i <= k <= rules.len(),
        forall|j: int|
            i <= j < k ==> ip_rule_passes(
                #[trigger] rules[j],
                blocked,
                ip,
                sni,
                outcome_at(outcomes, j),
            ),
    ensures
        route_from(rules, i, blocked, ip, sni, outcomes) == route_from(
            rules,
            k,
            blocked,
            ip,
            sni,
            outcomes,
        ),
    decreases k - i,
{
    if i < k {
        assert(ip_rule_passes(rules[i], blocked, ip, sni, outcome_at(outcomes, i)));
        lemma_route_skips(rules, i + 1, k, blocked, ip, sni, outcomes);
    }
}

/// Whether a conditional rule is open to the server name: the match text is
/// `if16kb`, alone or with a list behind it that does not hold the name.
pub fn checkis16kbaccepted(conditional: &str, sni: &str) -> (r: bool)
    ensures
        r == (is_16kb_rule(conditional@) && !sni_exempt(conditional@, sni@)),
{
    if !head_is(conditional, "if16kb") {
        return false;
    }
    let k = find_char(conditional, ' ', 0);
    if k < conditional.unicode_len() {
        !list_holds(conditional, k + 1, sni)
    } else {
        true
    }
}

/// Whether the match text names a network.
pub fn checkiscidraccepted(conditional: &str) -> (r: bool)
    ensures
        r == is_cidr_rule(conditional@),
{
    head_is(conditional, "cidr")
}

/// The text behind the first space, where there is one.
fn tail_of(s: &str) -> (r: Option<String>)
    ensures
        match r {
            Some(tail) => tail_words(s@) == Some(tail@),
            None => tail_words(s@) is None,
        },
{
    let n: usize = s.unicode_len();
    let k = find_char(s, ' ', 0);
    if k < n {
        let tail = s.substring_char(k + 1, n);
        assert(s@.subrange(k + 1, n as int) =~= s@.skip(k + 1));
        Some(tail.to_owned())
    } else {
        None
    }
}

/// Whether an IP rule applies to a destination, where matching its glob
/// against the address came to `matched`.
fn ip_rule_applies_to(
    rule_match: &str,
    blocked: bool,
    ip: &IpAddress,
    sni: &str,
    matched: Option<bool>,
) -> (r: Result<bool, RouterError>)
    ensures
        r == ip_rule_applies(rule_match@, blocked, *ip, sni@, matched),
{
    if head_is(rule_match, "if16kb") {
        Ok(blocked && checkis16kbaccepted(rule_match, sni))
    } else if checkiscidraccepted(rule_match) {
        match tail_of(rule_match) {
            Some(network) => match cidr_contains(network.as_str(), ip) {
                Some(inside) => Ok(inside),
                None => Err(RouterError::BadCidr),
            },
            None => Err(RouterError::BadCidr),
        }
    } else {
        match matched {
            Some(matched) => Ok(matched),
            None => Err(RouterError::BadPattern),
        }
    }
}

/// The outcome that was recorded for rule `i`.
fn recorded(outcomes: &Vec<Option<bool>>, i: usize) -> (r: Option<bool>)
    ensures
        r == outcome_at(outcomes@, i as int),
{
    if i < outcomes.len() {
        outcomes[i]
    } else {
        None
    }
}

/// A route or an error, over sequences.
pub open spec fn route_view(r: Result<RouteDecision, RouterError>) -> Result<Route, RouterError> {
    match r {
        Ok(route) => Ok(route@),
        Err(e) => Err(e),
    }
}

/// The route that the action text of a rule asks for, if it asks for one.
fn route_of_action(action: &str) -> (r: Option<RouteDecision>)
    ensures
        match r {
            Some(route) => match rule_action(action@) {
                RuleAction::Socks5(proxy) => route@ == Route::Socks5(proxy),
                RuleAction::Block => route@ == Route::Block,
                RuleAction::Skip => false,
            },
            None => rule_action(action@) is Skip,
        },
{
    if head_is(action, "block") {
        Some(RouteDecision::Block)
    } else if head_is(action, "socks5") {
        match tail_of(action) {
            Some(proxy) => Some(RouteDecision::Socks5(proxy)),
            None => None,
        }
    } else {
        None
    }
}

/// The rule is one of the given type.
pub open spec fn of_type(rule_type: RouterRuleType) -> spec_fn(RouterRule) -> bool {
    |rule: RouterRule| rule.rule_type == rule_type
}

impl Router {
    /// The rules of the given type, in the order of the configuration.
    pub fn query_router_rules<'a>(config: &'a AuxConfig, rule_type: &RouterRuleType) -> (found: Vec<
        &'a RouterRule,
    >)
        ensures
            found@.map_values(|rule: &RouterRule| *rule) == config.router_options.rules@.filter(
                of_type(*rule_type),
            ),
    {
        let rules = &config.router_options.rules;
        let mut found: Vec<&'a RouterRule> = Vec::new();
        let mut i: usize = 0;
        assert(rules@.take(0) =~= Seq::<RouterRule>::empty());
        assert(found@.map_values(|rule: &RouterRule| *rule) =~= Seq::<RouterRule>::empty());
        while i < rules.len()
            invariant
                i <= rules@.len(),
                rules == &config.router_options.rules,
                found@.map_values(|rule: &RouterRule| *rule) == rules@.take(i as int).filter(
                    of_type(*rule_type),
                ),
            decreases rules@.len() - i,
        {
            let ghost before = found@.map_values(|rule: &RouterRule| *rule);
            proof {
                assert(rules@.take(i + 1).drop_last() =~= rules@.take(i as int));
                assert(rules@.take(i + 1).last() == rules@[i as int]);
                reveal_with_fuel(Seq::filter, 2);
            }
            if rules[i].rule_type == *rule_type {
                found.push(&rules[i]);
                assert(found@.map_values(|rule: &RouterRule| *rule) =~= before.push(
                    rules@[i as int],
                ));
            }
            i += 1;
        }
        assert(rules@.take(rules@.len() as int) =~= rules@);
        found
    }

    /// Matches `text` against the glob of every rule of the given type and
    /// scope, and gives the outcome for each rule by its position: whether
    /// the glob matched, or nothing where it does not compile, and nothing
    /// for the rules of another type or scope.
    pub fn match_rules(
        config: &AuxConfig,
        rule_type: RouterRuleType,
        scope: RouterRuleScope,
        text: &str,
    ) -> (outcomes: Vec<Option<bool>>)
        ensures
            faithful(config.router_options.rules@, rule_type, scope, text@, outcomes@),
    {
        let rules = &config.router_options.rules;
        let mut outcomes: Vec<Option<bool>> = Vec::new();
        let mut i: usize = 0;
        while i < rules.len()
            invariant
                i <= rules@.len(),
                rules == &config.router_options.rules,
                outcomes@.len() == i,
                forall|j: int|
                    0 <= j < i && in_scope(rules@[j], rule_type, scope) && portable_glob(
                        rules@[j].rule_match@,
                    ) ==> #[trigger] outcomes@[j] == glob_match(rules@[j].rule_match@, text@),
            decreases rules@.len() - i,
        {
            let rule = &rules[i];
            if rule.rule_type == rule_type && rule.scope == scope {
                outcomes.push(glob_matches(rule.rule_match.as_str(), text));
            } else {
                outcomes.push(None);
            }
            i += 1;
        }
        outcomes
    }

    /// The route for an outbound connection to `addr` for a client that asked
    /// for the server name `sni`, where `blocked` says whether the address is
    /// marked and `outcomes` holds, for each rule by its position, what
    /// matching its glob against the address came to: the first IP rule that
    /// applies and asks for something decides, and where none does the
    /// connection is made directly. A rule whose network or glob cannot be
    /// read ends the search with an error.
    pub fn route_with(
        config: &AuxConfig,
        blocked: bool,
        addr: &SocketAddress,
        sni: &str,
        outcomes: &Vec<Option<bool>>,
    ) -> (r: Result<RouteDecision, RouterError>)
        ensures
            route_view(r) == route_from(
                config.router_options.rules@,
                0,
                blocked,
                addr.ip,
                sni@,
                outcomes@,
            ),
    {
        let rules = &config.router_options.rules;
        let mut i: usize = 0;
        while i < rules.len()
            invariant
                i <= rules@.len(),
                rules == &config.router_options.rules,
                route_from(rules@, 0, blocked, addr.ip, sni@, outcomes@) == route_from(
                    rules@,
                    i as int,
                    blocked,
                    addr.ip,
                    sni@,
                    outcomes@,
                ),
            decreases rules@.len() - i,
        {
            let rule = &rules[i];
            if rule.rule_type == RouterRuleType::Forward && rule.scope == RouterRuleScope::IP {
                match ip_rule_applies_to(
                    rule.rule_match.as_str(),
                    blocked,
                    &addr.ip,
                    sni,
                    recorded(outcomes, i),
                ) {
                    Err(e) => {
                        return Err(e);
                    },
                    Ok(false) => {},
                    Ok(true) => {
                        match route_of_action(rule.action.as_str()) {
                            Some(route) => {
                                return Ok(route);
                            },
                            None => {},
                        }
                    },
                }
            }
            i += 1;
        }
        Ok(RouteDecision::Direct)
    }

    /// The route for an outbound connection to `addr`, whose address reads
    /// `addr_text`, for a client that asked for the server name `sni`: the
    /// route by the rules, for the address as it is marked or not, and for
    /// what matching the globs of the IP rules against `addr_text` comes to.
    pub fn decide_for_tcp_connect(
        config: &AuxConfig,
        marker: &BlockMarker,
        addr: &SocketAddress,
        addr_text: &str,
        sni: &str,
    ) -> (r: Result<RouteDecision, RouterError>)
        ensures
            exists|outcomes: Seq<Option<bool>>|
                #[trigger] faithful(
                    config.router_options.rules@,
                    RouterRuleType::Forward,
                    RouterRuleScope::IP,
                    addr_text@,
                    outcomes,
                ) && route_view(r) == route_from(
                    config.router_options.rules@,
                    0,
                    marker@.contains(*addr),
                    addr.ip,
                    sni@,
                    outcomes,
                ),
    {
        let outcomes = Self::match_rules(
            config,
            RouterRuleType::Forward,
            RouterRuleScope::IP,
            addr_text,
        );
        let blocked = marker.is_16kb_blocked(*addr);
        Self::route_with(config, blocked, addr, sni, &outcomes)
    }
}

/// An interjection over sequences.
pub ghost enum Interjection {
    Allow,
    AutoResolved(Destination),
}

impl View for RouterInterjectionStatus {
    type V = Interjection;

    open spec fn view(&self) -> Interjection {
        match *self {
            RouterInterjectionStatus::Allow => Interjection::Allow,
            RouterInterjectionStatus::AutoResolved(parsed) => Interjection::AutoResolved(parsed@),
        }
    }
}

/// The target text reads as IPv6: it holds a colon and no dot.
pub open spec fn names_ipv6(action: Seq<char>) -> bool {
    action.contains(':') && !action.contains('.')
}

/// The octets of the target of a FakeDNS rule: for a target that reads as
/// IPv6 the sixteen octets that the caller parsed it to, for any other the
/// four octets of the dotted quad.
pub open spec fn fake_dns_target(action: Seq<char>, ipv6_octets: Option<Seq<u8>>) -> Option<
    Seq<u8>,
> {
    if names_ipv6(action) {
        match ipv6_octets {
            Some(octets) => if octets.len() == 16 {
                Some(octets)
            } else {
                None
            },
            None => None,
        }
    } else {
        match ipv4_of_text(action) {
            Some(ip) => Some(ip.octets_spec()),
            None => None,
        }
    }
}

/// What a matching rule makes of a request for `host_unprocessed`: a FakeDNS
/// rule resolves it to its target, at port 443; any other rule lets it pass.
pub open spec fn processed_rule(
    rule_type: RouterRuleType,
    action: Seq<char>,
    host_unprocessed: Seq<u8>,
    ipv6_octets: Option<Seq<u8>>,
) -> Result<Interjection, RouterError> {
    match rule_type {
        RouterRuleType::FakeDNS => match fake_dns_target(action, ipv6_octets) {
            Some(octets) => Ok(
                Interjection::AutoResolved(
                    Destination {
                        host_raw: octets,
                        host_unprocessed,
                        port: 443,
                        dest_addr_type: if names_ipv6(action) {
                            4u8
                        } else {
                            1u8
                        },
                        is_udp: false,
                    },
                ),
            ),
            None => Err(RouterError::BadFakeDnsTarget),
        },
        RouterRuleType::Forward => Ok(Interjection::Allow),
    }
}

/// The rule is a FakeDNS rule for DNS queries.
pub open spec fn is_dns_rule(rule: RouterRule) -> bool {
    in_scope(rule, RouterRuleType::FakeDNS, RouterRuleScope::DnsQuery)
}

/// The octets that the caller parsed the target of rule `i` to, if any.
pub open spec fn target_at(targets: Seq<Option<Vec<u8>>>, i: int) -> Option<Seq<u8>> {
    if 0 <= i < targets.len() {
        crate::socks::option_view(targets[i])
    } else {
        None
    }
}

/// What the rules from `i` on make of a request for `host`: the first DNS
/// rule whose glob matched the name decides; a glob that does not compile
/// ends the search and lets the request pass.
pub open spec fn interjection_from(
    rules: Seq<RouterRule>,
    i: int,
    host: Seq<u8>,
    targets: Seq<Option<Vec<u8>>>,
    outcomes: Seq<Option<bool>>,
) -> Result<Interjection, RouterError>
    decreases rules.len() - i,
{
    if i < 0 || i >= rules.len() {
        Ok(Interjection::Allow)
    } else if !is_dns_rule(rules[i]) {
        interjection_from(rules, i + 1, host, targets, outcomes)
    } else {
        match outcome_at(outcomes, i) {
            None => Ok(Interjection::Allow),
            Some(true) => processed_rule(
                rules[i].rule_type,
                rules[i].action@,
                host,
                target_at(targets, i),
            ),
            Some(false) => interjection_from(rules, i + 1, host, targets, outcomes),
        }
    }
}

/// The rule is a forwarding rule for server names.
pub open spec fn is_sni_rule(rule: RouterRule) -> bool {
    in_scope(rule, RouterRuleType::Forward, RouterRuleScope::SNI)
}

/// Whether the rules from `i` on block the server name: the first SNI rule
/// whose glob matched the name decides, and blocks where it asks for that.
pub open spec fn sni_blocked_from(rules: Seq<RouterRule>, i: int, outcomes: Seq<Option<bool>>) -> Result<
    bool,
    RouterError,
>
    decreases rules.len() - i,
{
    if i < 0 || i >= rules.len() {
        Ok(false)
    } else if !is_sni_rule(rules[i]) {
        sni_blocked_from(rules, i + 1, outcomes)
    } else {
        match outcome_at(outcomes, i) {
            None => Err(RouterError::BadPattern),
            Some(true) => Ok(rule_action(rules[i].action@) is Block),
            Some(false) => sni_blocked_from(rules, i + 1, outcomes),
        }
    }
}

/// An interjection or an error, over sequences.
pub open spec fn interjection_view(r: Result<RouterInterjectionStatus, RouterError>) -> Result<
    Interjection,
    RouterError,
> {
    match r {
        Ok(status) => Ok(status@),
        Err(e) => Err(e),
    }
}

/// The octets of the target of a FakeDNS rule.
fn target_octets(action: &str, ipv6_octets: &Option<Vec<u8>>) -> (r: Option<Vec<u8>>)
    ensures
        crate::socks::option_view(r) == fake_dns_target(
            action@,
            crate::socks::option_view(*ipv6_octets),
        ),
{
    let is_ipv6 = has_char(action, ':') && !has_char(action, '.');
    if is_ipv6 {
        match ipv6_octets {
            Some(octets) => if octets.len() == 16 {
                Some(copy_all(octets.as_slice()))
            } else {
                None
            },
            None => None,
        }
    } else {
        match parse_ipv4(action) {
            Some(ip) => Some(ip.octets()),
            None => None,
        }
    }
}

impl Router {
    /// What a matching rule makes of a request for `host_unprocessed`.
    /// `ipv6_octets` holds the octets of the rule's target where the caller
    /// read it as an IPv6 address.
    pub fn router_process(
        rule_type: RouterRuleType,
        action: &str,
        host_unprocessed: Vec<u8>,
        ipv6_octets: &Option<Vec<u8>>,
    ) -> (r: Result<RouterInterjectionStatus, RouterError>)
        ensures
            interjection_view(r) == processed_rule(
                rule_type,
                action@,
                host_unprocessed@,
                crate::socks::option_view(*ipv6_octets),
            ),
    {
        match rule_type {
            RouterRuleType::FakeDNS => {
                let is_ipv6 = has_char(action, ':') && !has_char(action, '.');
                match target_octets(action, ipv6_octets) {
                    Some(octets) => Ok(
                        RouterInterjectionStatus::AutoResolved(
                            IpParser {
                                host_raw: octets,
                                host_unprocessed,
                                port: 443,
                                dest_addr_type: if is_ipv6 {
                                    4
                                } else {
                                    1
                                },
                                is_udp: false,
                            },
                        ),
                    ),
                    None => Err(RouterError::BadFakeDnsTarget),
                }
            },
            RouterRuleType::Forward => Ok(RouterInterjectionStatus::Allow),
        }
    }

    /// What the router makes of a request for `host`, where `outcomes` holds,
    /// for each rule by its position, what matching its glob against the
    /// requested name came to: the first FakeDNS rule for DNS queries whose
    /// glob matched resolves the name. `ipv6_targets` holds, for each rule by
    /// its position, the octets of its target where the caller read it as an
    /// IPv6 address.
    pub fn interject_with(
        config: &AuxConfig,
        host: Vec<u8>,
        ipv6_targets: &Vec<Option<Vec<u8>>>,
        outcomes: &Vec<Option<bool>>,
    ) -> (r: Result<RouterInterjectionStatus, RouterError>)
        ensures
            interjection_view(r) == interjection_from(
                config.router_options.rules@,
                0,
                host@,
                ipv6_targets@,
                outcomes@,
            ),
    {
        let rules = &config.router_options.rules;
        let no_target: Option<Vec<u8>> = None;
        let mut i: usize = 0;
        while i < rules.len()
            invariant
                i <= rules@.len(),
                rules == &config.router_options.rules,
                no_target is None,
                interjection_from(rules@, 0, host@, ipv6_targets@, outcomes@) == interjection_from(
                    rules@,
                    i as int,
                    host@,
                    ipv6_targets@,
                    outcomes@,
                ),
            decreases rules@.len() - i,
        {
            let rule = &rules[i];
            if rule.rule_type == RouterRuleType::FakeDNS && rule.scope
                == RouterRuleScope::DnsQuery {
                match recorded(outcomes, i) {
                    None => {
                        return Ok(RouterInterjectionStatus::Allow);
                    },
                    Some(true) => {
                        let target = if i < ipv6_targets.len() {
                            &ipv6_targets[i]
                        } else {
                            &no_target
                        };
                        return Self::router_process(
                            rule.rule_type,
                            rule.action.as_str(),
                            host,
                            target,
                        );
                    },
                    Some(false) => {},
                }
            }
            i += 1;
        }
        Ok(RouterInterjectionStatus::Allow)
    }

    /// What the router makes of a SOCKS request before it is resolved: a
    /// request without an address type is an error; for any other, what the
    /// rules make of the requested name, for what matching the globs of the
    /// DNS rules against the name comes to.
    pub fn interject_dns(
        config: &AuxConfig,
        buffer: &[u8],
        ipv6_targets: &Vec<Option<Vec<u8>>>,
    ) -> (r: Result<RouterInterjectionStatus, RouterError>)
        ensures
            buffer@.len() < 4 ==> r == Err::<RouterInterjectionStatus, RouterError>(
                RouterError::MalformedRequest,
            ),
            buffer@.len() >= 4 ==> exists|outcomes: Seq<Option<bool>>|
                #[trigger] faithful(
                    config.router_options.rules@,
                    RouterRuleType::FakeDNS,
                    RouterRuleScope::DnsQuery,
                    utf8_lossy(parsed_request(buffer@, None).host_unprocessed),
                    outcomes,
                ) && interjection_view(r) == interjection_from(
                    config.router_options.rules@,
                    0,
                    parsed_request(buffer@, None).host_unprocessed,
                    ipv6_targets@,
                    outcomes,
                ),
    {
        let parsed = match IpParser::parse_no_resolve(buffer) {
            Ok(parsed) => parsed,
            Err(_) => {
                return Err(RouterError::MalformedRequest);
            },
        };
        let host = parsed.host_unprocessed;
        let ghost requested = host@;
        let name = decode_lossy(host.as_slice());
        let outcomes = Self::match_rules(
            config,
            RouterRuleType::FakeDNS,
            RouterRuleScope::DnsQuery,
            name.as_str(),
        );
        let r = Self::interject_with(config, host, ipv6_targets, &outcomes);
        assert(faithful(
            config.router_options.rules@,
            RouterRuleType::FakeDNS,
            RouterRuleScope::DnsQuery,
            utf8_lossy(requested),
            outcomes@,
        ));
        assert(requested == parsed_request(buffer@, None).host_unprocessed);
        r
    }

    /// Whether the rules block a server name, where `outcomes` holds, for
    /// each rule by its position, what matching its glob against the name
    /// came to: the first forwarding rule for server names whose glob matched
    /// decides. A glob that does not compile is an error.
    pub fn sni_blocked_with(config: &AuxConfig, outcomes: &Vec<Option<bool>>) -> (r: Result<
        bool,
        RouterError,
    >)
        ensures
            r == sni_blocked_from(config.router_options.rules@, 0, outcomes@),
    {
        let rules = &config.router_options.rules;
        let mut i: usize = 0;
        while i < rules.len()
            invariant
                i <= rules@.len(),
                rules == &config.router_options.rules,
                sni_blocked_from(rules@, 0, outcomes@) == sni_blocked_from(
                    rules@,
                    i as int,
                    outcomes@,
                ),
            decreases rules@.len() - i,
        {
            let rule = &rules[i];
            if rule.rule_type == RouterRuleType::Forward && rule.scope == RouterRuleScope::SNI {
                match recorded(outcomes, i) {
                    None => {
                        return Err(RouterError::BadPattern);
                    },
                    Some(true) => {
                        let blocks = match route_of_action(rule.action.as_str()) {
                            Some(RouteDecision::Block) => true,
                            _ => false,
                        };
                        return Ok(blocks);
                    },
                    Some(false) => {},
                }
            }
            i += 1;
        }
        Ok(false)
    }

    /// Whether the rules block a server name, for what matching the globs of
    /// the server-name rules against the name comes to.
    pub fn sni_is_blocked(config: &AuxConfig, sni: &str) -> (r: Result<bool, RouterError>)
        ensures
            exists|outcomes: Seq<Option<bool>>|
                #[trigger] faithful(
                    config.router_options.rules@,
                    RouterRuleType::Forward,
                    RouterRuleScope::SNI,
                    sni@,
                    outcomes,
                ) && r == sni_blocked_from(config.router_options.rules@, 0, outcomes),
    {
        let outcomes = Self::match_rules(
            config,
            RouterRuleType::Forward,
            RouterRuleScope::SNI,
            sni,
        );
        Self::sni_blocked_with(config, &outcomes)
    }
}

/// Server-name rules are taken in the order in which they are declared:
/// where no server-name rule before `k` matched the name and rule `k` did,
/// rule `k` decides, whatever follows.
pub proof fn lemma_first_sni_match_decides(
    rules: Seq<RouterRule>,
    k: int,
    outcomes: Seq<Option<bool>>,
)
    requires
        0 <= k < rules.len(),
        forall|j: int|
            0 <= j < k ==> !is_sni_rule(#[trigger] rules[j]) || outcome_at(outcomes, j) == Some(
                false,
            ),
        is_sni_rule(rules[k]),
        outcome_at(outcomes, k) == Some(true),
    ensures
        sni_blocked_from(rules, 0, outcomes) == Ok::<bool, RouterError>(
            rule_action(rules[k].action@) is Block,
        ),
{
    lemma_sni_rules_skip(rules, 0, k, outcomes);
}

/// Server-name rules that did not match do not change the verdict.
proof fn lemma_sni_rules_skip(rules: Seq<RouterRule>, i: int, k: int, outcomes: Seq<Option<bool>>)
    requires
        0 <= i <= k <= rules.len(),
        forall|j: int|
            i <= j < k ==> !is_sni_rule(#[trigger] rules[j]) || outcome_at(outcomes, j) == Some(
                false,
            ),
    ensures
        sni_blocked_from(rules, i, outcomes) == sni_blocked_from(rules, k, outcomes),
    decreases k - i,
{
    if i < k {
        assert(!is_sni_rule(rules[i]) || outcome_at(outcomes, i) == Some(false));
        lemma_sni_rules_skip(rules, i + 1, k, outcomes);
    }
}

/// DNS rules are taken in the order in which they are declared: where no DNS
/// rule before `k` matched the requested name and rule `k` did, the target
/// of rule `k` is what the name resolves to, whatever follows.
pub proof fn lemma_first_dns_match_decides(
    rules: Seq<RouterRule>,
    k: int,
    host: Seq<u8>,
    targets: Seq<Option<Vec<u8>>>,
    outcomes: Seq<Option<bool>>,
)
    requires
        0 <= k < rules.len(),
        forall|j: int|
            0 <= j < k ==> !is_dns_rule(#[trigger] rules[j]) || outcome_at(outcomes, j) == Some(
                false,
            ),
        is_dns_rule(rules[k]),
        outcome_at(outcomes, k) == Some(true),
    ensures
        interjection_from(rules, 0, host, targets, outcomes) == processed_rule(
            rules[k].rule_type,
            rules[k].action@,
            host,
            target_at(targets, k),
        ),
{
    lemma_dns_rules_skip(rules, 0, k, host, targets, outcomes);
}

/// DNS rules that did not match do not change what a name resolves to.
proof fn lemma_dns_rules_skip(
    rules: Seq<RouterRule>,
    i: int,
    k: int,
    host: Seq<u8>,
    targets: Seq<Option<Vec<u8>>>,
    outcomes: Seq<Option<bool>>,
)
    requires
        0 <= i <= k <= rules.len(),
        forall|j: int|
            i <= j < k ==> !is_dns_rule(#[trigger] rules[j]) || outcome_at(outcomes, j) == Some(
                false,
            ),
    ensures
        interjection_from(rules, i, host, targets, outcomes) == interjection_from(
            rules,
            k,
            host,
            targets,
            outcomes,
        ),
    decreases k - i,
{
    if i < k {
        assert(!is_dns_rule(rules[i]) || outcome_at(outcomes, i) == Some(false));
        lemma_dns_rules_skip(rules, i + 1, k, host, targets, outcomes);
    }
}

} // verus!
