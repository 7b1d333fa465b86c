use hickory_resolver::config::ResolverOpts;
use reqwest_hickory_resolver::HickoryResolver;
use reqwest_hickory_resolver::IpAddress;
use reqwest_hickory_resolver::ResolveFailure;
use reqwest_hickory_resolver::SocketAddress;

fn ip(a: u8, b: u8, c: u8, d: u8) -> IpAddress {
    IpAddress::V4([a, b, c, d])
}

#[test]
fn default_has_no_options_and_no_shuffle() {
    let resolver = HickoryResolver::default();
    assert!(resolver.options().is_none());
    assert!(!resolver.shuffle_enabled());
}

#[test]
fn with_options_keeps_only_the_last_applied() {
    let mut first = ResolverOpts::default();
    first.attempts = 2;
    let mut second = ResolverOpts::default();
    second.attempts = 7;
    let resolver = HickoryResolver::default().with_options(first).with_options(second);
    assert_eq!(resolver.options().as_ref().unwrap().attempts, 7);
    assert!(!resolver.shuffle_enabled());
}

#[test]
fn with_shuffle_keeps_only_the_last_applied() {
    let off = HickoryResolver::default().with_shuffle(true).with_shuffle(false);
    assert!(!off.shuffle_enabled());
    let on = HickoryResolver::default().with_shuffle(false).with_shuffle(true);
    assert!(on.shuffle_enabled());
    let on_twice = HickoryResolver::default().with_shuffle(true).with_shuffle(true);
    assert!(on_twice.shuffle_enabled());
}

#[test]
fn configuration_survives_the_other_method() {
    let mut opts = ResolverOpts::default();
    opts.attempts = 5;
    let resolver = HickoryResolver::default().with_options(opts).with_shuffle(true);
    assert_eq!(resolver.options().as_ref().unwrap().attempts, 5);
    assert!(resolver.shuffle_enabled());
}

#[test]
fn addresses_come_back_with_port_zero() {
    let mut resolver = HickoryResolver::default();
    let out = resolver
        .finish_lookup(Ok(vec![ip(192, 0, 2, 1), ip(192, 0, 2, 2)]))
        .unwrap();
    assert_eq!(
        out,
        vec![
            SocketAddress { ip: ip(192, 0, 2, 1), port: 0 },
            SocketAddress { ip: ip(192, 0, 2, 2), port: 0 },
        ]
    );
}

#[test]
fn order_is_unchanged_without_shuffle() {
    let mut resolver = HickoryResolver::default();
    let a = ip(10, 0, 0, 1);
    let b = IpAddress::V6([0xfe; 16]);
    let c = ip(10, 0, 0, 3);
    let out = resolver.finish_lookup(Ok(vec![a, b, c])).unwrap();
    let ips: Vec<IpAddress> = out.iter().map(|s| s.ip).collect();
    assert_eq!(ips, vec![a, b, c]);
}

#[test]
fn lookup_failure_is_propagated_unchanged() {
    let mut resolver = HickoryResolver::default();
    let cause = ResolveFailure { detail: String::from("no records found for nonexistent.example. (NXDOMAIN)") };
    let out = resolver.finish_lookup(Err(cause.clone()));
    assert_eq!(out, Err(cause));
}

#[test]
fn lookup_failure_is_propagated_even_with_shuffle() {
    let mut resolver = HickoryResolver::default().with_shuffle(true);
    let cause = ResolveFailure { detail: String::from("request timed out") };
    let out = resolver.finish_lookup(Err(cause.clone()));
    assert_eq!(out, Err(cause));
}

#[test]
fn empty_lookup_stays_an_empty_success() {
    let mut plain = HickoryResolver::default();
    assert_eq!(plain.finish_lookup(Ok(vec![])), Ok(vec![]));
    let mut shuffled = HickoryResolver::default().with_shuffle(true);
    assert_eq!(shuffled.finish_lookup(Ok(vec![])), Ok(vec![]));
}

#[test]
fn shuffle_returns_a_permutation_of_the_same_addresses() {
    let mut resolver = HickoryResolver::default().with_shuffle(true);
    let a = ip(192, 0, 2, 1);
    let b = ip(192, 0, 2, 2);
    let c = ip(192, 0, 2, 3);
    for _ in 0..200 {
        let out = resolver.finish_lookup(Ok(vec![a, b, c])).unwrap();
        assert_eq!(out.len(), 3);
        for addr in &out {
            assert_eq!(addr.port, 0);
        }
        for wanted in [a, b, c] {
            assert_eq!(out.iter().filter(|s| s.ip == wanted).count(), 1);
        }
    }
}

#[test]
fn shuffle_hits_every_ordering_about_equally_often() {
    let mut resolver = HickoryResolver::default().with_shuffle(true);
    let addrs = [ip(192, 0, 2, 1), ip(192, 0, 2, 2), ip(192, 0, 2, 3)];
    let trials = 6000;
    let mut counts = [0usize; 6];
    for _ in 0..trials {
        let out = resolver.finish_lookup(Ok(addrs.to_vec())).unwrap();
        let pos = |wanted: IpAddress| out.iter().position(|s| s.ip == wanted).unwrap();
        let key = pos(addrs[0]) * 2 + if pos(addrs[1]) < pos(addrs[2]) { 0 } else { 1 };
        counts[key] += 1;
    }
    // Expected 1000 per ordering; far outside any plausible random wobble is a bug.
    for count in counts {
        assert!(count > 700, "an ordering appeared only {count} times out of {trials}");
    }
}
