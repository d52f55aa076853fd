use satellite_registry::fruits::{get_all_fruits, get_single_fruit, Fruit};
use satellite_registry::generate_keypair::{generate_keypair, make_keypair_response};
use satellite_registry::Address;

#[test]
fn catalogue_holds_the_three_fruits() {
    let fruits = get_all_fruits();
    assert_eq!(fruits.len(), 3);
    assert_eq!(fruits[0].name, "banana");
    assert_eq!(fruits[1].name, "apple");
    assert_eq!(fruits[2].name, "orange");
    assert_eq!(fruits[0].nutrients, vec!["potassium", "vitamin B6"]);
    assert_eq!(fruits[1].nutrients, vec!["fiber", "vitamin C"]);
    assert_eq!(fruits[2].nutrients, vec!["vitamin C", "folate"]);
    for fruit in &fruits {
        assert_eq!(fruit.id.as_ref().expect("fresh id").len(), 36);
    }
}

#[test]
fn fresh_ids_differ() {
    let a = Fruit::new("kiwi".to_string(), vec![]);
    let b = Fruit::new("kiwi".to_string(), vec![]);
    assert_ne!(a.id, b.id);
}

#[test]
fn new_fruit_keeps_its_fields() {
    let fruit = Fruit::new("kiwi".to_string(), vec!["vitamin C".to_string()]);
    assert_eq!(fruit.name, "kiwi");
    assert_eq!(fruit.nutrients, vec!["vitamin C"]);
    assert_eq!(fruit.id.expect("fresh id").len(), 36);
}

#[test]
fn known_fruit_is_found() {
    let fruit = get_single_fruit(&"apple".to_string()).expect("in the catalogue");
    assert_eq!(fruit.name, "apple");
    assert_eq!(fruit.nutrients, vec!["fiber", "vitamin C"]);
}

#[test]
fn unknown_fruit_is_absent() {
    assert!(get_single_fruit(&"kiwi".to_string()).is_none());
    assert!(get_single_fruit(&"Banana".to_string()).is_none());
    assert!(get_single_fruit(&"".to_string()).is_none());
}

#[test]
fn keypair_response_encodes_the_secret_in_base58() {
    let secret: Vec<u8> = (0u8..64).collect();
    let r = make_keypair_response(Address::new([9u8; 32]), &secret);
    assert_eq!(r.pubkey.bytes, [9u8; 32]);
    assert_eq!(r.secret_key, bs58::encode(&secret).into_string());
    assert_eq!(bs58::decode(&r.secret_key).into_vec().unwrap(), secret);
}

#[test]
fn generated_secret_decodes_to_a_full_keypair() {
    let r = generate_keypair();
    let secret = bs58::decode(&r.secret_key).into_vec().expect("base58 text");
    assert_eq!(secret.len(), 64);
    assert_eq!(&secret[32..], &r.pubkey.bytes);
}

#[test]
fn each_catalogue_lookup_carries_its_own_nutrients() {
    let banana = get_single_fruit(&"banana".to_string()).expect("in the catalogue");
    assert_eq!(banana.nutrients, vec!["potassium", "vitamin B6"]);
    let orange = get_single_fruit(&"orange".to_string()).expect("in the catalogue");
    assert_eq!(orange.nutrients, vec!["vitamin C", "folate"]);
}
