//! The server-name filter of a strategy.

use crate::bytes::{contains_bytes, copy_range, find_bytes};
use crate::config::{AuxConfig, RouterRule, RouterRuleScope, RouterRuleType};
use crate::router::{faithful, sni_blocked_from, Router, RouterError};
use crate::text::{decode_lossy, utf8_lossy};
use vstd::prelude::*;
use vstd::utf8::encode_utf8;

verus! {

/// The server-name filter.
pub struct Whitelist();

/// The texts of a list of names.
pub open spec fn names_view(names: Seq<String>) -> Seq<Seq<char>> {
    Seq::new(names.len(), |i: int| names[i]@)
}

/// One of the names occurs in the text.
pub open spec fn some_name_occurs(names: Seq<Seq<char>>, text: Seq<char>) -> bool {
    exists|i: int|
        0 <= i < names.len() && contains_bytes(encode_utf8(text), encode_utf8(#[trigger] names[i]))
}

/// A server name was found, and it lies inside the data.
pub open spec fn name_in_reach(sni_data: (u32, u32), data: Seq<u8>) -> bool {
    sni_data != (0u32, 0u32) && sni_data.0 <= sni_data.1 <= data.len()
}

/// The server name as it is observed in the data in which it was found, if
/// one was found there.
pub open spec fn observed_name(sni_data: (u32, u32), data: Seq<u8>) -> Option<Seq<char>> {
    if name_in_reach(sni_data, data) {
        Some(utf8_lossy(data.subrange(sni_data.0 as int, sni_data.1 as int)))
    } else {
        None
    }
}

/// Whether the rules block the observed name: nothing is blocked where no
/// name was observed.
pub open spec fn sni_verdict(
    rules: Seq<RouterRule>,
    name: Option<Seq<char>>,
    outcomes: Seq<Option<bool>>,
) -> Result<bool, RouterError> {
    match name {
        Some(_) => sni_blocked_from(rules, 0, outcomes),
        None => Ok(false),
    }
}

/// The outcomes are those of matching the observed name against the globs of
/// the server-name rules, where a name was observed.
pub open spec fn sni_faithful(
    rules: Seq<RouterRule>,
    name: Option<Seq<char>>,
    outcomes: Seq<Option<bool>>,
) -> bool {
    match name {
        Some(text) => faithful(rules, RouterRuleType::Forward, RouterRuleScope::SNI, text, outcomes),
        None => true,
    }
}

/// Whether the filter lets a strategy work. Without a filter it does. Where
/// no server name was observed, only an empty filter does. Where one was
/// observed, it must not be blocked by a rule; then an empty filter lets it
/// through, and any other filter where one of its names occurs in the
/// observed name.
pub open spec fn whitelist_verdict(
    whitelist: Option<Seq<Seq<char>>>,
    name: Option<Seq<char>>,
    blocked: Result<bool, RouterError>,
) -> Result<bool, RouterError> {
    match whitelist {
        None => Ok(true),
        Some(names) => match name {
            None => Ok(names.len() == 0),
            Some(text) => match blocked {
                Err(e) => Err(e),
                Ok(true) => Err(RouterError::Blocked),
                Ok(false) => Ok(names.len() == 0 || some_name_occurs(names, text)),
            },
        },
    }
}

/// The view of an optional list of names.
pub open spec fn whitelist_view(whitelist: Option<Vec<String>>) -> Option<Seq<Seq<char>>> {
    match whitelist {
        Some(names) => Some(names_view(names@)),
        None => None,
    }
}

/// The view of an optional text.
pub open spec fn text_view(text: Option<String>) -> Option<Seq<char>> {
    match text {
        Some(text) => Some(text@),
        None => None,
    }
}

impl Whitelist {
    /// Whether one of the names occurs in the text.
    fn any_occurs(names: &Vec<String>, text: &str) -> (r: bool)
        ensures
            r == some_name_occurs(names_view(names@), text@),
    {
        let hay = text.as_bytes();
        let mut i: usize = 0;
        while i < names.len()
            invariant
                i <= names@.len(),
                hay@ == encode_utf8(text@),
                forall|j: int|
                    0 <= j < i ==> !contains_bytes(
                        encode_utf8(text@),
                        encode_utf8(#[trigger] names_view(names@)[j]),
                    ),
            decreases names@.len() - i,
        {
            let needle = names[i].as_str().as_bytes();
            assert(needle@ == encode_utf8(names_view(names@)[i as int]));
            if find_bytes(hay, needle).is_some() {
                return true;
            }
            i += 1;
        }
        false
    }

    /// The server name as it is observed in the data in which it was found.
    pub fn observe(sni_data: &(u32, u32), data: &[u8]) -> (name: Option<String>)
        ensures
            text_view(name) == observed_name(*sni_data, data@),
    {
        if sni_data.0 == 0 && sni_data.1 == 0 {
            return None;
        }
        let start: usize = sni_data.0 as usize;
        let end: usize = sni_data.1 as usize;
        if !(start <= end && end <= data.len()) {
            return None;
        }
        let sni_slice = copy_range(data, start, end);
        Some(decode_lossy(sni_slice.as_slice()))
    }

    /// Whether the filter lets a strategy work, for the name that was
    /// observed and for what the rules say of it; an error where a rule
    /// blocks the name, or cannot be read.
    pub fn verdict(
        whitelist: &Option<Vec<String>>,
        name: &Option<String>,
        blocked: Result<bool, RouterError>,
    ) -> (r: Result<bool, RouterError>)
        ensures
            r == whitelist_verdict(whitelist_view(*whitelist), text_view(*name), blocked),
    {
        match whitelist {
            None => Ok(true),
            Some(names) => match name {
                None => Ok(names.len() == 0),
                Some(text) => match blocked {
                    Err(e) => Err(e),
                    Ok(true) => Err(RouterError::Blocked),
                    Ok(false) => {
                        if names.len() == 0 {
                            Ok(true)
                        } else {
                            Ok(Self::any_occurs(names, text.as_str()))
                        }
                    },
                },
            },
        }
    }

    /// Whether the rules block the observed name, for what matching the
    /// globs of the server-name rules against it comes to.
    pub fn blocked_name(config: &AuxConfig, name: &Option<String>) -> (r: Result<bool, RouterError>)
        ensures
            exists|outcomes: Seq<Option<bool>>|
                sni_faithful(config.router_options.rules@, text_view(*name), outcomes) && r
                    == #[trigger] sni_verdict(
                    config.router_options.rules@,
                    text_view(*name),
                    outcomes,
                ),
    {
        match name {
            Some(text) => {
                let r = Router::sni_is_blocked(config, text.as_str());
                proof {
                    let outcomes = choose|outcomes: Seq<Option<bool>>|
                        #[trigger] faithful(
                            config.router_options.rules@,
                            RouterRuleType::Forward,
                            RouterRuleScope::SNI,
                            text@,
                            outcomes,
                        ) && r == sni_blocked_from(config.router_options.rules@, 0, outcomes);
                    assert(r == sni_verdict(
                        config.router_options.rules@,
                        text_view(*name),
                        outcomes,
                    ));
                }
                r
            },
            None => {
                assert(Ok::<bool, RouterError>(false) == sni_verdict(
                    config.router_options.rules@,
                    text_view(*name),
                    Seq::<Option<bool>>::empty(),
                ));
                Ok(false)
            },
        }
    }

    /// Whether the filter lets a strategy work on the data in which the
    /// server name was found; an error where a rule blocks the observed name,
    /// or cannot be read.
    pub fn check_whitelist(
        whitelist: &Option<Vec<String>>,
        sni_data: &(u32, u32),
        data: &[u8],
        config: &AuxConfig,
    ) -> (r: Result<bool, RouterError>)
        ensures
            exists|outcomes: Seq<Option<bool>>|
                sni_faithful(
                    config.router_options.rules@,
                    observed_name(*sni_data, data@),
                    outcomes,
                ) && r == whitelist_verdict(
                    whitelist_view(*whitelist),
                    observed_name(*sni_data, data@),
                    #[trigger] sni_verdict(
                        config.router_options.rules@,
                        observed_name(*sni_data, data@),
                        outcomes,
                    ),
                ),
    {
        let name = Self::observe(sni_data, data);
        let blocked = Self::blocked_name(config, &name);
        Self::verdict(whitelist, &name, blocked)
    }
}

} // verus!
