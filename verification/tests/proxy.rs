use proxydetox::clients::{ClientSlot, ClientTable};
use proxydetox::dns::DnsCache;
use proxydetox::proxy::{address_in, proxy_at, InvalidProxies, Proxies, ProxyDesc};
use proxydetox::uri::{InvalidUri, Uri};

fn proxy(address: &str) -> ProxyDesc {
    ProxyDesc::Proxy(Uri::parse(address).unwrap())
}

#[test]
fn result_lists_proxies_in_order() {
    assert_eq!(
        Proxies::parse("PROXY 192.0.2.1:3128; PROXY b:8080 ;DIRECT").unwrap(),
        Proxies::new(vec![proxy("192.0.2.1:3128"), proxy("b:8080"), ProxyDesc::Direct])
    );
    assert_eq!(Proxies::parse("DIRECT").unwrap(), Proxies::direct());
}

#[test]
fn blank_entries_do_not_count() {
    assert_eq!(Proxies::parse(" DIRECT ; ;").unwrap(), Proxies::new(vec![ProxyDesc::Direct]));
    assert_eq!(Proxies::parse(";;"), Err(InvalidProxies));
    assert_eq!(Proxies::parse(""), Err(InvalidProxies));
}

#[test]
fn malformed_entries_are_refused() {
    for result in [
        "direct", "PROXY", "PROXY ", "PROXY /path", "PROXY a b", "SOCKS a:1", "DIRECT; nonsense",
        "PROXYa:1", "DIRECT a",
    ] {
        assert_eq!(Proxies::parse(result), Err(InvalidProxies));
    }
}

#[test]
fn lists_with_a_semicolon_between_them_join() {
    let a = "PROXY a:1; PROXY b:2";
    let b = "DIRECT";
    let joined = Proxies::parse(&format!("{};{}", a, b)).unwrap();
    assert_eq!(joined, Proxies::new(vec![proxy("a:1"), proxy("b:2"), ProxyDesc::Direct]));
}

#[test]
fn first_proxy_is_used() {
    assert_eq!(Proxies::parse("PROXY a:1; DIRECT").unwrap().first(), proxy("a:1"));
    assert_eq!(Proxies::direct().first(), ProxyDesc::Direct);
    assert_eq!(Proxies::new(Vec::new()).first(), ProxyDesc::Direct);
}

#[test]
fn proxies_are_written_as_entries() {
    assert_eq!(ProxyDesc::Direct.text(), "DIRECT");
    assert_eq!(proxy("a:1").text(), "PROXY a:1");
    assert_eq!(Proxies::parse(&proxy("a:1").text()).unwrap().first(), proxy("a:1"));
}

#[test]
fn address_of_an_entry_follows_the_keyword() {
    assert_eq!(address_in("PROXY  a:1"), Some("a:1"));
    assert_eq!(address_in("PROXY"), None);
    assert_eq!(address_in("HTTP a:1"), None);
    assert_eq!(proxy_at(Uri::parse("a:1")), Some(proxy("a:1")));
    assert_eq!(proxy_at(Uri::parse("/a")), None);
    assert_eq!(proxy_at(Err(InvalidUri)), None);
}

#[test]
fn same_address_has_the_same_client() {
    let mut table = ClientTable::new();
    let a = Uri::parse("http://a:1/").unwrap();
    let b = Uri::parse("http://b:1/").unwrap();
    assert_eq!(table.slot(&a), ClientSlot::New(0));
    assert_eq!(table.slot(&b), ClientSlot::New(1));
    assert_eq!(table.slot(&a), ClientSlot::Known(0));
    assert_eq!(table.slot(&Uri::parse("HTTP://A:1/").unwrap()), ClientSlot::Known(0));
    assert_eq!(table.slot(&b), ClientSlot::Known(1));
    assert_eq!(table.slot(&Uri::parse("a:1").unwrap()), ClientSlot::New(2));
}

#[test]
fn cache_keeps_the_last_address_of_a_host() {
    let mut cache = DnsCache::new();
    assert_eq!(cache.lookup("a"), None);
    cache.record("a", Some("192.0.2.1".to_string()));
    cache.record("b", None);
    cache.record("a", Some("192.0.2.2".to_string()));
    assert_eq!(cache.lookup("a"), Some(Some("192.0.2.2".to_string())));
    assert_eq!(cache.lookup("b"), Some(None));
    assert_eq!(cache.lookup("c"), None);
    assert_eq!(cache.map().len(), 2);
}
