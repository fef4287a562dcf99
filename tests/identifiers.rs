use nautilus_identifiers::account_id::{account_id_free, AccountId};
use nautilus_identifiers::component_id::{component_id_free, ComponentId};
use nautilus_identifiers::symbol::{symbol_free, Symbol};
use nautilus_identifiers::text::hash_text;
use nautilus_identifiers::venue::{venue_free, Venue};
use std::collections::hash_map::DefaultHasher;
use std::hash::{Hash, Hasher};

fn derived_hash<T: Hash>(t: &T) -> u64 {
    let mut h = DefaultHasher::new();
    t.hash(&mut h);
    h.finish()
}

#[test]
fn test_account_id_from_str() {
    let account_id1 = AccountId::from("123456789");
    let account_id2 = AccountId::from("234567890");

    assert_eq!(account_id1, account_id1);
    assert_ne!(account_id1, account_id2);
}

#[test]
fn test_account_id_as_str() {
    let account_id = AccountId::from("1234567890");

    assert_eq!(account_id.to_string(), "1234567890");
}

#[test]
fn test_component_id_from_str() {
    let component_id1 = ComponentId::from("RiskEngine");
    let component_id2 = ComponentId::from("DataEngine");

    assert_eq!(component_id1, component_id1);
    assert_ne!(component_id1, component_id2);
    assert_eq!(component_id1.to_string(), "RiskEngine");
}

#[test]
fn test_component_id_as_str() {
    let component_id = ComponentId::from("RiskEngine");

    assert_eq!(component_id.to_string(), "RiskEngine");
}

#[test]
fn test_symbol_from_str() {
    let symbol1 = Symbol::from("XRD/USD");
    let symbol2 = Symbol::from("BTC/USD");

    assert_eq!(symbol1, symbol1);
    assert_ne!(symbol1, symbol2);
    assert_eq!(symbol1.to_string(), "XRD/USD");
}

#[test]
fn test_symbol_as_str() {
    let symbol = Symbol::from("ETH-PERP");

    assert_eq!(symbol.to_string(), "ETH-PERP");
}

#[test]
fn test_venue_from_str() {
    let venue1 = Venue::from("FTX");
    let venue2 = Venue::from("IDEALPRO");

    assert_eq!(venue1, venue1);
    assert_ne!(venue1, venue2);
    assert_eq!(venue1.to_string(), "FTX");
}

#[test]
fn test_venue_as_str() {
    let venue = Venue::from("FTX");

    assert_eq!(venue.to_string(), "FTX");
}

#[test]
fn account_id_renders_verbatim() {
    let account_id = AccountId::from("SIM-02851908");
    assert_eq!(account_id.to_string(), "SIM-02851908");
    assert_eq!(account_id.as_str(), "SIM-02851908");
}

#[test]
fn equal_texts_make_equal_identifiers() {
    assert_eq!(Venue::from("FTX"), Venue::from("FTX"));
    assert_eq!(AccountId::from(""), AccountId::from(""));
    assert_ne!(Symbol::from("eth-perp"), Symbol::from("ETH-PERP"));
    assert_ne!(ComponentId::from("RiskEngine"), ComponentId::from("RiskEngine "));
}

#[test]
fn render_keeps_text_unchanged() {
    for s in ["", "XRD/USD", "ETH-PERP", " spaced ", "caf\u{e9}/\u{20ac}", "\u{1f680}"] {
        assert_eq!(Symbol::from(s).to_string(), s);
        assert_eq!(Symbol::from(s).as_str(), s);
        assert_eq!(AccountId::from(s).to_string(), s);
        assert_eq!(ComponentId::from(s).to_string(), s);
        assert_eq!(Venue::from(s).to_string(), s);
    }
}

#[test]
fn equal_texts_hash_equal() {
    let a = ComponentId::from("RiskEngine");
    let b = ComponentId::from("RiskEngine");
    assert_eq!(a.hash_value(), b.hash_value());
    assert_eq!(derived_hash(&a), derived_hash(&b));
    assert_eq!(Venue::from("FTX").hash_value(), Venue::from("FTX").hash_value());
}

#[test]
fn different_texts_hash_apart() {
    let a = ComponentId::from("RiskEngine");
    let b = ComponentId::from("DataEngine");
    assert_ne!(a, b);
    assert_ne!(a.hash_value(), b.hash_value());
    assert_ne!(derived_hash(&a), derived_hash(&b));
}

#[test]
fn hash_value_is_the_hash_of_the_bytes() {
    let mut h = DefaultHasher::new();
    h.write("IDEALPRO".as_bytes());
    let expected = h.finish();
    assert_eq!(Venue::from("IDEALPRO").hash_value(), expected);
    assert_eq!(hash_text("IDEALPRO"), expected);
    assert_eq!(AccountId::from("IDEALPRO").hash_value(), expected);
}

#[test]
fn clone_is_independent() {
    let a = AccountId::from("SIM-02851908");
    let b = a.clone();
    assert_eq!(a, b);
    account_id_free(a);
    assert_eq!(b.to_string(), "SIM-02851908");

    let s = Symbol::from("XRD/USD");
    let t = s.clone();
    symbol_free(t);
    assert_eq!(s.to_string(), "XRD/USD");

    let v = Venue::from("FTX");
    let w = v.clone();
    venue_free(v);
    assert_eq!(w.as_str(), "FTX");

    let c = ComponentId::from("DataEngine");
    let d = c.clone();
    component_id_free(d);
    assert_eq!(c.to_string(), "DataEngine");
}
