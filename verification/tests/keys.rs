use altpay::keys::{parse_public_key, payment_hash_text, public_key_text};
use bitcoin::secp256k1::{PublicKey, Secp256k1, SecretKey};

fn key(n: u8) -> Vec<u8> {
    let secret = SecretKey::from_slice(&[n; 32]).unwrap();
    PublicKey::from_secret_key(&Secp256k1::new(), &secret).serialize().to_vec()
}

const KEY_OF_ONES: &str = "031b84c5567b126440995d3ed5aaba0565d71e1834604819ff9c17f5e9d5dd078f";

#[test]
fn keys_have_hexadecimal_texts() {
    assert_eq!(public_key_text(&key(1)).unwrap(), KEY_OF_ONES);
    assert_eq!(parse_public_key(KEY_OF_ONES).unwrap(), key(1));
    assert_eq!(parse_public_key(&KEY_OF_ONES.to_uppercase()).unwrap(), key(1));
}

#[test]
fn key_texts_read_back() {
    for n in 1..20u8 {
        assert_eq!(parse_public_key(&public_key_text(&key(n)).unwrap()).unwrap(), key(n));
    }
}

#[test]
fn uncompressed_keys_are_compressed() {
    let secret = SecretKey::from_slice(&[1; 32]).unwrap();
    let full = PublicKey::from_secret_key(&Secp256k1::new(), &secret).serialize_uncompressed();
    let text: String = full.iter().map(|b| format!("{:02x}", b)).collect();
    assert_eq!(parse_public_key(&text).unwrap(), key(1));
}

#[test]
fn what_is_no_key() {
    for s in ["", "02", "zz", &KEY_OF_ONES[..64], &"00".repeat(33), &"02".repeat(34)] {
        assert_eq!(parse_public_key(s).unwrap_err(), "malformed public key");
    }
    assert_eq!(public_key_text(&vec![0; 33]), None);
    assert_eq!(public_key_text(&vec![2; 32]), None);
    assert_eq!(public_key_text(&vec![]), None);
}

#[test]
fn hashes_have_hexadecimal_texts() {
    assert_eq!(payment_hash_text(&vec![0; 32]), "00".repeat(32));
    let bytes: Vec<u8> = (0..32).map(|i| i * 8 + 7).collect();
    assert_eq!(
        payment_hash_text(&bytes),
        "070f171f272f373f474f575f676f777f878f979fa7afb7bfc7cfd7dfe7eff7ff"
    );
}

#[test]
fn different_hashes_have_different_texts() {
    let mut other = vec![0; 32];
    other[31] = 1;
    assert_ne!(payment_hash_text(&vec![0; 32]), payment_hash_text(&other));
}
