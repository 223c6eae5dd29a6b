//! The rewriting of `localhost` in container mode.
//!
//! Inside a container `localhost` is the container itself; the host answers
//! under a name that depends on the runtime. The names are tried in a fixed
//! order, each by a probe of whether it resolves, and the first that does
//! takes the place of `localhost`. The probes are the caller's to make: here
//! stand the steps between them.

use crate::endpoint::{moved_to, Endpoint, EndpointView};
use vstd::prelude::*;
use vstd::string::*;

verus! {

/// The number of host names that stand for the container host.
pub const ALIAS_COUNT: usize = 2;

/// The host names that stand for the container host, in the order in which
/// they are tried: that of Docker, then that of Podman.
pub open spec fn alias_text(index: int) -> Seq<char> {
    if index == 0 {
        "host.docker.internal"@
    } else {
        "host.containers.internal"@
    }
}

/// The host name that is tried at position `index`, if the list goes
/// that far.
pub fn alias_name(index: usize) -> (r: Option<&'static str>)
    ensures
        r is Some == (index < ALIAS_COUNT),
        r matches Some(name) ==> name@ == alias_text(index as int),
{
    if index == 0 {
        Some("host.docker.internal")
    } else if index == 1 {
        Some("host.containers.internal")
    } else {
        None
    }
}

/// What to do next about the host of the address.
#[derive(Debug, Clone, Copy, PartialEq, Eq, Structural)]
pub enum RewriteStep {
    /// Probe the host name at this position.
    Probe(usize),
    /// Put the host name at this position in place of `localhost`.
    Rewrite(usize),
    /// Leave the address as it is.
    Keep,
}

/// The first step: only in container mode, and only for an address whose
/// host is exactly `localhost`, are the host names probed.
pub open spec fn first_step(container_mode: bool, host: Option<Seq<char>>) -> RewriteStep {
    if container_mode && host == Some("localhost"@) {
        RewriteStep::Probe(0)
    } else {
        RewriteStep::Keep
    }
}

/// The step after the probe of the host name at `alias`: the name is taken
/// where it resolved, else the next is probed, and after the last the
/// address stays.
pub open spec fn next_step(alias: usize, resolved: bool) -> RewriteStep {
    if resolved {
        RewriteStep::Rewrite(alias)
    } else if alias + 1 < ALIAS_COUNT {
        RewriteStep::Probe((alias + 1) as usize)
    } else {
        RewriteStep::Keep
    }
}

/// Says whether the host names are to be probed for the address, and with
/// which to begin.
pub fn rewrite_localhost(container_mode: bool, endpoint: &Endpoint) -> (r: RewriteStep)
    ensures
        r == first_step(container_mode, endpoint@.host),
{
    if !container_mode {
        return RewriteStep::Keep;
    }
    match endpoint.host() {
        Some(host) => {
            let wanted: String = "localhost".to_owned();
            if *host == wanted {
                RewriteStep::Probe(0)
            } else {
                RewriteStep::Keep
            }
        },
        None => RewriteStep::Keep,
    }
}

/// Says how to go on after the probe of the host name at `alias`.
pub fn next_probe(alias: usize, resolved: bool) -> (r: RewriteStep)
    ensures
        r == next_step(alias, resolved),
{
    if resolved {
        RewriteStep::Rewrite(alias)
    } else if alias < ALIAS_COUNT - 1 {
        RewriteStep::Probe(alias + 1)
    } else {
        RewriteStep::Keep
    }
}

/// Where the steps from the probe of `alias` on end, when the host name at
/// each position `i` resolves just if `resolvable[i]`.
pub open spec fn last_step(alias: usize, resolvable: Seq<bool>) -> RewriteStep
    decreases ALIAS_COUNT - alias,
{
    if alias >= ALIAS_COUNT {
        RewriteStep::Keep
    } else {
        match next_step(alias, resolvable[alias as int]) {
            RewriteStep::Probe(next) => last_step(next, resolvable),
            done => done,
        }
    }
}

/// The address that startup goes on with, when the host name at each
/// position `i` resolves just if `resolvable[i]`.
pub open spec fn endpoint_after_probes(
    endpoint: EndpointView,
    container_mode: bool,
    resolvable: Seq<bool>,
) -> EndpointView {
    match first_step(container_mode, endpoint.host) {
        RewriteStep::Probe(alias) => match last_step(alias, resolvable) {
            RewriteStep::Rewrite(taken) => moved_to(endpoint, alias_text(taken as int)),
            _ => endpoint,
        },
        _ => endpoint,
    }
}

/// `first` is the position of the first host name that resolves.
pub open spec fn is_first_resolvable(resolvable: Seq<bool>, first: int) -> bool {
    &&& 0 <= first < resolvable.len()
    &&& resolvable[first]
    &&& forall|i: int| 0 <= i < first ==> !resolvable[i]
}

/// The probes end with the first host name that resolves, in the order of
/// the list; where none resolves, they end with the address kept.
pub proof fn lemma_first_resolvable_alias(resolvable: Seq<bool>)
    requires
        resolvable.len() == ALIAS_COUNT,
    ensures
        match last_step(0, resolvable) {
            RewriteStep::Rewrite(alias) => is_first_resolvable(resolvable, alias as int),
            RewriteStep::Keep => forall|i: int| 0 <= i < ALIAS_COUNT ==> !resolvable[i],
            RewriteStep::Probe(_) => false,
        },
{
    reveal_with_fuel(last_step, 3);
}

/// In container mode an address on `localhost` moves to the first host name
/// of the list that resolves, and stays as it is where none does.
pub proof fn lemma_localhost_rewrite(endpoint: EndpointView, resolvable: Seq<bool>, first: int)
    requires
        resolvable.len() == ALIAS_COUNT,
        endpoint.host == Some("localhost"@),
    ensures
        is_first_resolvable(resolvable, first) ==> endpoint_after_probes(
            endpoint,
            true,
            resolvable,
        ) == moved_to(endpoint, alias_text(first)),
        (forall|i: int| 0 <= i < ALIAS_COUNT ==> !resolvable[i]) ==> endpoint_after_probes(
            endpoint,
            true,
            resolvable,
        ) == endpoint,
{
    reveal_with_fuel(last_step, 3);
}

/// Outside container mode, and for an address on another host, nothing is
/// probed and the address stays as it is.
pub proof fn lemma_no_rewrite(endpoint: EndpointView, container_mode: bool, resolvable: Seq<bool>)
    requires
        !container_mode || endpoint.host != Some("localhost"@),
    ensures
        first_step(container_mode, endpoint.host) == RewriteStep::Keep,
        endpoint_after_probes(endpoint, container_mode, resolvable) == endpoint,
{
}

} // verus!
