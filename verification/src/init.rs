//! Construction of the underlying hickory resolver: first try the system
//! resolver configuration, fall back to the hard-coded default configuration,
//! then overwrite the builder's options with the caller's, when any were
//! supplied. The hickory calls stand behind trusted wrappers; the fallback
//! and option-application control flow is verified.
//!
//! `Resolver` and its builder carry a trait bound that cannot be declared
//! here, so both are held in opaque wrapper structs instead of being named in
//! signatures directly.

use hickory_resolver::Resolver;
use hickory_resolver::ResolverBuilder;
use hickory_resolver::TokioResolver;
use hickory_resolver::config::ResolverConfig;
use hickory_resolver::config::ResolverOpts;
use hickory_resolver::name_server::TokioConnectionProvider;
use vstd::prelude::*;

verus! {

#[verifier::external_type_specification]
#[verifier::external_body]
pub struct ExResolverOpts(ResolverOpts);

/// The constructed hickory resolver. Opaque to the verified code, which only
/// stores and shares it; lookups are issued through the public field by the
/// unverified shell around the library.
#[verifier::external_body]
pub struct UnderlyingResolver(pub TokioResolver);

/// A hickory resolver builder in flight, opaque to the verified code.
#[verifier::external_body]
pub struct PendingResolver {
    inner: ResolverBuilder<TokioConnectionProvider>,
}

/// Relies on `Resolver::builder` with a default `TokioConnectionProvider`:
/// reads the system resolver configuration (`/etc/resolv.conf` on Unix);
/// `None` when that discovery fails. The result depends on what is on disk,
/// so nothing more is promised.
#[verifier::external_body]
fn builder_from_system() -> Option<PendingResolver> {
    match Resolver::builder(TokioConnectionProvider::default()) {
        Ok(inner) => Some(PendingResolver { inner }),
        Err(_) => None,
    }
}

/// Relies on `Resolver::builder_with_config` applied to
/// `ResolverConfig::default` and a default `TokioConnectionProvider`: a
/// builder from the hard-coded default configuration; it cannot fail.
#[verifier::external_body]
fn builder_from_defaults() -> PendingResolver {
    PendingResolver {
        inner: Resolver::builder_with_config(
            ResolverConfig::default(),
            TokioConnectionProvider::default(),
        ),
    }
}

/// Relies on `ResolverBuilder::with_options`: replaces the builder's options,
/// whatever they were, with the given ones.
#[verifier::external_body]
fn builder_with_options(builder: PendingResolver, opts: ResolverOpts) -> PendingResolver {
    PendingResolver { inner: builder.inner.with_options(opts) }
}

/// Relies on `ResolverBuilder::build`: constructs the resolver from the
/// builder; it cannot fail.
#[verifier::external_body]
fn build_resolver(builder: PendingResolver) -> UnderlyingResolver {
    UnderlyingResolver(builder.inner.build())
}

/// Relies on `ResolverOpts::clone` (derived, a field-by-field copy): the copy
/// equals the original.
#[verifier::external_body]
fn clone_opts(opts: &ResolverOpts) -> (r: ResolverOpts)
    ensures
        r == *opts,
{
    opts.clone()
}

/// Build the underlying resolver: system configuration discovery first, the
/// default configuration as the fallback (so a missing or unreadable system
/// configuration never makes construction fail), and the caller's options, if
/// any, overwriting whatever the chosen configuration supplied.
pub fn construct_resolver(opts: &Option<ResolverOpts>) -> UnderlyingResolver {
    let builder = match builder_from_system() {
        Some(b) => b,
        None => builder_from_defaults(),
    };
    let builder = match opts {
        Some(o) => builder_with_options(builder, clone_opts(o)),
        None => builder,
    };
    build_resolver(builder)
}

} // verus!
