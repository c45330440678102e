//! Link generation settings for one response.
use vstd::prelude::*;

use crate::config::{LinkPrefix, MiasmaConfig};

verus! {

/// Settings of the links of a response that carries links.
#[derive(Debug, PartialEq, Eq)]
pub struct LinkSettingsInner {
    /// The number of links.
    pub count: u8,
    /// The prefix of every link.
    pub prefix: LinkPrefix,
    /// The depth that the links lead to, when a maximum depth is set.
    pub next_depth: Option<u32>,
}

/// Controls link generation for a given response.
#[derive(Debug, PartialEq, Eq)]
pub enum LinkSettings {
    NoLinks,
    Links(LinkSettingsInner),
}

/// The scraper has reached the maximum depth, when there is one.
pub open spec fn at_max_depth(max_depth: Option<u32>, current_depth: u32) -> bool {
    max_depth matches Some(max) && current_depth >= max
}

impl LinkSettings {
    /// Determine link generation settings based on config and current depth:
    /// no links at or past the maximum depth; otherwise the configured number
    /// of links under the configured prefix, leading one level deeper when a
    /// maximum depth is set.
    pub fn next(config: &MiasmaConfig, current_depth: u32) -> (r: Self)
        ensures
            r is NoLinks <==> at_max_depth(config.max_depth, current_depth),
            r matches LinkSettings::Links(l) ==> {
                &&& l.count == config.link_count
                &&& l.prefix.value() == config.link_prefix.value()
                &&& l.next_depth == match config.max_depth {
                    Some(_) => Some((current_depth + 1) as u32),
                    None => None::<u32>,
                }
            },
            r matches LinkSettings::Links(l) ==> (l.next_depth matches Some(next) ==> next <= config.max_depth->0),
    {
        let at_max = match config.max_depth {
            Some(max) => current_depth >= max,
            None => false,
        };
        if at_max {
            return LinkSettings::NoLinks;
        }
        let next_depth = match config.max_depth {
            Some(_) => Some(current_depth + 1),
            None => None,
        };
        LinkSettings::Links(
            LinkSettingsInner { count: config.link_count, prefix: config.link_prefix.duplicate(), next_depth },
        )
    }
}

} // verus!
