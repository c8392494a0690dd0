use npc_workbench::adapters::nodes::connectors::on_chain::u256_decimal;
use npc_workbench::adapters::nodes::listeners::{convert_to_expected_type, event_json, OffChainCheck, ReturnedToken, TokenData};
use npc_workbench::encrypt::{decrypt_with_private_key, encrypt_with_public_key, sealed_metadata};
use npc_workbench::ethereum::{address_debug, parse_address, parse_chain, wallet_address_of_key, wallet_key_valid};
use npc_workbench::ipfs::{IPFSClientFactory, IPFSProvider};
use npc_workbench::json::JsonValue;
use npc_workbench::string_map::StringMap;
use npc_workbench::text::{hex_decode, hex_encode, u64_to_decimal};
use npc_workbench::utils::{generate_unique_id, unique_id_from};

fn one_key() -> String {
    format!("{:064x}", 1)
}

#[test]
fn hex_round_trip() {
    assert_eq!(hex_encode(&[0x01, 0xab, 0xff]), "01abff");
    assert_eq!(hex_decode("01abff"), Some(vec![0x01, 0xab, 0xff]));
    assert_eq!(hex_decode("0x01"), Some(vec![0x01]));
    assert_eq!(hex_decode("abc"), None);
    assert_eq!(hex_decode("zz"), None);
}

#[test]
fn decimal_texts() {
    assert_eq!(u64_to_decimal(0), "0");
    assert_eq!(u64_to_decimal(1234567890), "1234567890");
    assert_eq!(u256_decimal(&[5, 0, 0, 0]), "5");
    assert_eq!(u256_decimal(&[0, 1, 0, 0]), "18446744073709551616");
}

#[test]
fn addresses_and_chains() {
    let a = parse_address("0x0000000000000000000000000000000000000001").unwrap();
    assert_eq!(a[19], 1);
    assert_eq!(address_debug(&a), "0x0000000000000000000000000000000000000001");
    assert_eq!(parse_address("0x1234"), None);
    assert_eq!(parse_chain("mainnet"), Some("Mainnet".to_string()));
    assert_eq!(parse_chain("polygon-amoy"), Some("PolygonAmoy".to_string()));
    assert_eq!(parse_chain("nowhere"), None);
}

#[test]
fn wallet_keys() {
    assert!(wallet_key_valid(&one_key()));
    assert!(!wallet_key_valid(&format!("{:064x}", 0)));
    assert!(!wallet_key_valid("xyz"));
    let a = wallet_address_of_key(&one_key()).unwrap();
    assert_eq!(address_debug(&a), "0x7e5f4552091a69125d5dfcb7b8c2659029395bdf");
    assert_eq!(wallet_address_of_key("xyz"), None);
}

#[test]
fn unique_ids_are_time_random_bytes_and_address_digest() {
    let address = [7u8; 20];
    let id = unique_id_from(1, [9, 9, 9, 9], &address);
    assert_eq!(id.len(), 20);
    assert_eq!(&id[0..8], &[0, 0, 0, 0, 0, 0, 0, 1]);
    assert_eq!(&id[8..12], &[9, 9, 9, 9]);
    let digest = <sha2::Sha256 as sha2::Digest>::digest(address);
    assert_eq!(&id[12..20], &digest[0..8]);
    let other = unique_id_from(2, [9, 9, 9, 9], &address);
    assert_ne!(id, other);
    let fresh = generate_unique_id(&address).unwrap();
    assert_eq!(fresh.len(), 20);
    assert_eq!(&fresh[12..20], &digest[0..8]);
}

#[test]
fn encryption_round_trip() {
    let secret = hex_decode(&one_key()).unwrap();
    let sealed = encrypt_with_public_key(b"{\"a\":1}".to_vec(), &secret).unwrap();
    assert_eq!(sealed.len(), 7 + 97);
    assert_ne!(&sealed[97..], b"{\"a\":1}");
    assert_eq!(decrypt_with_private_key(sealed, &secret), Ok(b"{\"a\":1}".to_vec()));
    assert_eq!(encrypt_with_public_key(vec![], &secret), Err("Invalid data.".to_string()));
    assert_eq!(decrypt_with_private_key(vec![], &secret), Err("Invalid data.".to_string()));
    assert!(decrypt_with_private_key(vec![1, 2, 3], &secret).unwrap_err().starts_with("Error decrypting the data: "));
}

#[test]
fn string_map_insert_and_get() {
    let mut m = StringMap::new();
    m.insert_str("a", "1");
    m.insert_str("b", "2");
    m.insert_str("a", "3");
    assert_eq!(m.len(), 2);
    assert_eq!(m.get("a"), Some(&"3".to_string()));
    assert_eq!(m.get("c"), None);
    assert!(m.contains_key("b"));
    let w = m.without("a");
    assert_eq!(w.len(), 1);
    assert!(!w.contains_key("a"));
}

#[test]
fn ipfs_clients_need_their_settings() {
    let mut c = StringMap::new();
    c.insert_str("project_id", "id");
    match IPFSClientFactory::create_client(IPFSProvider::Infura, c) {
        Err(e) => assert_eq!(e, "Project Secret missing"),
        Ok(_) => panic!("the secret is missing"),
    }
    match IPFSClientFactory::create_client(IPFSProvider::Pinata, StringMap::new()) {
        Err(e) => assert_eq!(e, "API Key missing"),
        Ok(_) => panic!("the key is missing"),
    }
    let mut u = StringMap::new();
    u.insert_str("api_url", "http://ipfs");
    assert!(IPFSClientFactory::create_client(IPFSProvider::Custom, u).is_ok());
}

#[test]
fn request_headers_leave_out_invalid_ones() {
    let mut h = StringMap::new();
    h.insert_str("X-Good", "yes");
    h.insert_str("bad header", "v");
    h.insert_str("X-Other", "line\nbreak");
    let check = OffChainCheck { api_endpoint: "http://x".to_string(), params: None, headers: Some(h), expected_return_type: "JSON".to_string() };
    assert_eq!(check.request_headers(), vec![("X-Good".to_string(), "yes".to_string())]);
    assert!(check.reads_json());
}

#[test]
fn returned_tokens_as_json() {
    let n = ReturnedToken { value: TokenData::Uint([42, 0, 0, 0]), debug: "Uint(42)".to_string() };
    assert_eq!(convert_to_expected_type(&n, "uint256"), JsonValue::String("42".to_string()));
    assert_eq!(convert_to_expected_type(&n, "bytes32"), JsonValue::String("Uint(42)".to_string()));
    let b = ReturnedToken { value: TokenData::Bool(true), debug: "Bool(true)".to_string() };
    assert_eq!(convert_to_expected_type(&b, "bool"), JsonValue::Bool(true));
    let a = ReturnedToken { value: TokenData::Address([0u8; 20]), debug: String::new() };
    let o = ReturnedToken { value: TokenData::Other, debug: "Bytes([1])".to_string() };
    assert_eq!(
        event_json(&vec![n, a, o]),
        JsonValue::Array(vec![
            JsonValue::String("42".to_string()),
            JsonValue::String("0x0000000000000000000000000000000000000000".to_string()),
            JsonValue::String("Bytes([1])".to_string()),
        ])
    );
}

#[test]
fn descriptions_are_sealed_exactly_when_marked_encrypted() {
    let secret = hex_decode(&one_key()).unwrap();
    assert_eq!(sealed_metadata(b"{}".to_vec(), false, &secret), Ok(b"{}".to_vec()));
    let sealed = sealed_metadata(b"{}".to_vec(), true, &secret).unwrap();
    assert_eq!(sealed.len(), 2 + 97);
    assert_eq!(decrypt_with_private_key(sealed, &secret), Ok(b"{}".to_vec()));
    let mut wf = npc_workbench::workflow::Workflow::new(vec![1], "w".to_string(), true);
    let bytes = wf.upload_bytes(b"[1]".to_vec(), &secret).unwrap();
    assert_eq!(decrypt_with_private_key(bytes, &secret), Ok(b"[1]".to_vec()));
    wf.encrypted = false;
    assert_eq!(wf.upload_bytes(b"[1]".to_vec(), &secret), Ok(b"[1]".to_vec()));
}
