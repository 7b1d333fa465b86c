//! The client-facing adapter: configuration of the underlying resolver,
//! lazy exactly-once access to it, and the shaping of one lookup's outcome
//! into the address list handed back to the caller.

use crate::address::IpAddress;
use crate::address::SocketAddress;
use crate::address::with_port_zero;
use crate::init::UnderlyingResolver;
use crate::init::construct_resolver;
use crate::shuffle::rng_from_os;
use crate::shuffle::shuffle_addresses;
use hickory_resolver::config::ResolverOpts;
use rand::rngs::SmallRng;
use std::sync::Arc;
use std::sync::OnceLock;
use vstd::prelude::*;

verus! {

#[verifier::external_type_specification]
#[verifier::external_body]
#[verifier::reject_recursive_types(T)]
pub struct ExOnceLock<T>(OnceLock<T>);

/// A failed resolve call: either the underlying lookup failed or the
/// underlying resolver could not be built. Carries the underlying cause's
/// description; it is never swallowed into an empty successful result.
#[derive(Clone, Debug, PartialEq, Eq)]
pub struct ResolveFailure {
    pub detail: String,
}

/// The resolution adapter. It owns a shared, lazily-initialized underlying
/// resolver (built at most once per shared cell, on the first call that needs
/// it), the options frozen into that construction, and an optional private
/// randomness source for shuffling results.
#[derive(Clone)]
pub struct HickoryResolver {
    /// The once-settable cell holding the constructed underlying resolver,
    /// shared by every clone of this adapter. Construction is deferred to
    /// first use because it need not be possible at adapter-creation time.
    state: Arc<OnceLock<UnderlyingResolver>>,
    opts: Option<ResolverOpts>,
    rng: Option<SmallRng>,
}

/// Relies on std's `OnceLock::new`: an empty cell.
#[verifier::external_body]
fn empty_cell() -> OnceLock<UnderlyingResolver> {
    OnceLock::new()
}

/// Relies on std's `OnceLock::get_or_init`: returns the cell's value, first
/// running the construction closure if the cell was empty; under concurrent
/// first use the closure runs at most once and every caller observes the one
/// published value. The set-once discipline this depends on is stated and
/// proved, one construction outcome at a time, in `crate::once`.
#[verifier::external_body]
fn cell_get_or_init<'a>(
    cell: &'a Arc<OnceLock<UnderlyingResolver>>,
    opts: &Option<ResolverOpts>,
) -> &'a UnderlyingResolver {
    cell.get_or_init(|| construct_resolver(opts))
}

impl HickoryResolver {
    /// The options that the first construction of the underlying resolver
    /// will use, if any were supplied.
    pub closed spec fn spec_opts(&self) -> Option<ResolverOpts> {
        self.opts
    }

    /// Whether resolved address lists are shuffled before being returned.
    pub closed spec fn shuffling(&self) -> bool {
        self.rng is Some
    }

    /// The shared once-settable cell this adapter resolves through. Clones
    /// and configured copies keep the same cell, so they share one
    /// lazily-built underlying resolver.
    pub closed spec fn spec_state(&self) -> Arc<OnceLock<UnderlyingResolver>> {
        self.state
    }

    /// The adapter's private randomness source, if shuffling is enabled.
    pub closed spec fn spec_rng(&self) -> Option<SmallRng> {
        self.rng
    }

    /// Configure the resolver with the given options. Only the last options
    /// applied before the underlying resolver is first built take effect.
    pub fn with_options(self, opts: ResolverOpts) -> (r: Self)
        ensures
            r.spec_opts() == Some(opts),
            r.spec_state() == self.spec_state(),
            r.spec_rng() == self.spec_rng(),
            r.shuffling() == self.shuffling(),
    {
        HickoryResolver { opts: Some(opts), ..self }
    }

    /// Enable or disable shuffling of resolved address lists. Only the last
    /// setting applied takes effect; enabling draws a fresh private
    /// randomness source for this adapter.
    ///
    /// Shuffling costs an extra allocation and the shuffle itself, so it is
    /// off unless asked for.
    pub fn with_shuffle(self, shuffle: bool) -> (r: Self)
        ensures
            r.shuffling() == shuffle,
            r.spec_state() == self.spec_state(),
            r.spec_opts() == self.spec_opts(),
    {
        let rng = if shuffle {
            Some(rng_from_os())
        } else {
            None
        };
        HickoryResolver { rng, ..self }
    }

    /// The options supplied so far, if any.
    pub fn options(&self) -> (r: &Option<ResolverOpts>)
        ensures
            *r == self.spec_opts(),
    {
        &self.opts
    }

    /// Whether shuffling is enabled.
    pub fn shuffle_enabled(&self) -> (r: bool)
        ensures
            r == self.shuffling(),
    {
        self.rng.is_some()
    }

    /// The shared underlying resolver, built on first use with the options
    /// supplied so far. Later calls, from this adapter or any clone sharing
    /// its cell, reuse the one constructed instance.
    pub fn underlying(&self) -> &UnderlyingResolver {
        cell_get_or_init(&self.state, &self.opts)
    }

    /// Shape one lookup outcome into the caller's address list: a lookup
    /// failure is returned unchanged, never as an empty success; on success
    /// every address is paired with port zero (a later layer picks the port),
    /// in the underlying resolver's own order, or, when shuffling is enabled,
    /// in a random rearrangement of exactly the same addresses.
    pub fn finish_lookup(&mut self, outcome: Result<Vec<IpAddress>, ResolveFailure>) -> (r: Result<
        Vec<SocketAddress>,
        ResolveFailure,
    >)
        ensures
            final(self).spec_state() == old(self).spec_state(),
            final(self).spec_opts() == old(self).spec_opts(),
            final(self).shuffling() == old(self).shuffling(),
            outcome matches Err(e) ==> r == Result::<Vec<SocketAddress>, ResolveFailure>::Err(e),
            outcome matches Ok(ips) ==> {
                &&& r matches Ok(out)
                &&& out@.len() == ips@.len()
                &&& forall|i: int| 0 <= i < out@.len() ==> (#[trigger] out@[i]).port == 0
                &&& out@.map_values(|s: SocketAddress| s.ip).to_multiset() == ips@.to_multiset()
                &&& !old(self).shuffling() ==> out@ == ips@.map_values(
                    |a: IpAddress| SocketAddress { ip: a, port: 0u16 },
                )
            },
    {
        match outcome {
            Err(e) => Err(e),
            Ok(mut ips) => {
                let ghost original: Seq<IpAddress> = ips@;
                match &mut self.rng {
                    Some(rng) => {
                        shuffle_addresses(&mut ips, rng);
                    },
                    None => {},
                }
                let out = with_port_zero(&ips);
                proof {
                    assert(out@.map_values(|s: SocketAddress| s.ip) =~= ips@);
                    assert(ips@.to_multiset() == original.to_multiset());
                }
                Ok(out)
            },
        }
    }
}

impl Default for HickoryResolver {
    /// An adapter with no explicit options and shuffling disabled, whose
    /// underlying resolver has not yet been built.
    fn default() -> (r: Self)
        ensures
            r.spec_opts() is None,
            !r.shuffling(),
    {
        HickoryResolver { state: Arc::new(empty_cell()), opts: None, rng: None }
    }
}

} // verus!
