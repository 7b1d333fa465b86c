use hickory_resolver::config::ResolverOpts;
use reqwest_hickory_resolver::HickoryResolver;
use reqwest_hickory_resolver::init::construct_resolver;

#[test]
fn construction_succeeds_without_explicit_options() {
    // System discovery or the default-configuration fallback must yield a
    // resolver; neither path is allowed to fail outright.
    let resolver = construct_resolver(&None);
    drop(resolver);
}

#[test]
fn construction_succeeds_with_explicit_options() {
    let mut opts = ResolverOpts::default();
    opts.attempts = 3;
    let resolver = construct_resolver(&Some(opts));
    drop(resolver);
}

#[test]
fn underlying_resolver_is_built_on_first_use() {
    let adapter = HickoryResolver::default();
    // First use builds the resolver; the second call and any clone sharing
    // the cell find it already filled.
    let _first = adapter.underlying();
    let _second = adapter.underlying();
    let clone = adapter.clone();
    let _shared = clone.underlying();
}
