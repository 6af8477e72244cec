use github_event_handler::event::{EventInstallation, InstallationId, WebhookEvent, WebhookEventPayload};
use github_event_handler::handle::{handle_event, Dispatch};
use github_event_handler::response::{check_signature, respond};
use github_event_handler::signature::{verify, WebhookSecret};
use orion::hazardous::mac::hmac::sha256::{HmacSha256, SecretKey};

const PING_BODY: &[u8] = b"{\"hello\":\"world\",\"installation\":{\"id\":1,\"node_id\":\"dGVzdA==\"},\"zen\":\"Half measures are as bad as nothing at all.\"}";

fn secret() -> WebhookSecret {
    WebhookSecret::from_slice(&[0; 32]).unwrap()
}

fn calc_hmac_for_body(secret: &SecretKey, data: &[u8]) -> String {
    hex::encode(HmacSha256::hmac(secret, data).unwrap().unprotected_as_bytes())
}

fn signed(key: &[u8], body: &[u8]) -> String {
    let key = SecretKey::from_slice(key).unwrap();
    format!("sha256={}", calc_hmac_for_body(&key, body))
}

#[test]
fn test_happy_path() {
    let key = SecretKey::from_slice(&[0; 32]).unwrap();
    let body_hmac = calc_hmac_for_body(&key, PING_BODY);
    let header = format!("sha256={body_hmac}");
    assert_eq!(check_signature(&secret(), PING_BODY, Some(&header)), None);

    let event = WebhookEvent {
        installation: Some(EventInstallation::Minimal(InstallationId(1))),
        repository: None,
        specific: WebhookEventPayload::Ping {
            zen: Some("Half measures are as bad as nothing at all.".to_string()),
        },
    };
    let result = match handle_event(event) {
        Dispatch::Finished(result) => result,
        other => panic!("a ping needs no call, but the dispatch stands at {other:?}"),
    };
    let response = respond(result);
    assert_eq!(response.status, 200);
    assert_eq!(
        response.body,
        Some("Half measures are as bad as nothing at all.".to_string())
    );
}

#[test]
fn test_missing_signature() {
    let body = b"{\"hello\":\"world\"}";
    let response = check_signature(&secret(), body, None).unwrap();
    assert_eq!(response.status, 400);
}

#[test]
fn test_wrong_signature() {
    let body = b"{\"hello\":\"world\"}";
    let response = check_signature(
        &secret(),
        body,
        Some("sha256=46288437613044114D21E7FAD79837C12336202F4C85008548FB226693426F56"),
    )
    .unwrap();
    assert_eq!(response.status, 400);
}

#[test]
fn refusal_says_nothing_of_the_reason() {
    let body = b"{\"hello\":\"world\"}";
    let missing = check_signature(&secret(), body, None).unwrap();
    let malformed = check_signature(&secret(), body, Some("sha1=abcdef")).unwrap();
    let mismatch = check_signature(&secret(), body, Some(&signed(&[1; 32], body))).unwrap();
    assert_eq!(missing.body, None);
    assert_eq!(missing, malformed);
    assert_eq!(missing, mismatch);
}

#[test]
fn known_tag_verifies() {
    let secret = WebhookSecret::from_slice(&[0; 32]).unwrap();
    assert!(verify(
        &secret,
        PING_BODY,
        Some("sha256=db82be93bde6dbf23a367b08531ab2177ea71d7672317152b6bea94ed59c8471"),
    ));
    assert!(verify(
        &secret,
        b"{\"hello\":\"world\"}",
        Some("sha256=b72ab6ca78cc4ad07922d80225e5be2777a27ee647e5d62f7aa16f353d96065a"),
    ));
}

#[test]
fn short_key_vector_verifies() {
    let secret = WebhookSecret::from_slice(b"Jefe").unwrap();
    assert!(verify(
        &secret,
        b"what do ya want for nothing?",
        Some("sha256=5bdcc146bf60754e6a042426089575c75a003f089d2739839dec58b964ec3843"),
    ));
}

#[test]
fn key_longer_than_a_block_is_hashed_first() {
    let secret = WebhookSecret::from_slice(&[0xaa; 131]).unwrap();
    assert!(verify(
        &secret,
        b"Test Using Larger Than Block-Size Key - Hash Key First",
        Some("sha256=60e431591ee0b67f0d8a26aacbf5b77f8e0bc6213728c5140546040f0ee37f54"),
    ));
}

#[test]
fn signature_made_with_the_secret_verifies() {
    let keys: [&[u8]; 4] = [b"", b"k", &[7; 64], &[9; 200]];
    let bodies: [&[u8]; 4] = [b"", b"a", b"{\"action\":\"opened\"}", &[0xff; 300]];
    for key in keys {
        let secret = WebhookSecret::from_slice(key).unwrap();
        for body in bodies {
            assert!(verify(&secret, body, Some(&signed(key, body))));
        }
    }
}

#[test]
fn any_flipped_bit_of_the_header_fails() {
    let header = signed(&[0; 32], PING_BODY);
    assert!(verify(&secret(), PING_BODY, Some(&header)));
    let bytes = header.as_bytes();
    for index in 0..bytes.len() {
        for bit in 0..7 {
            let mut flipped = bytes.to_vec();
            flipped[index] ^= 1 << bit;
            let text = String::from_utf8(flipped).unwrap();
            assert!(!verify(&secret(), PING_BODY, Some(&text)), "byte {index}, bit {bit}");
        }
    }
}

#[test]
fn any_flipped_bit_of_the_body_fails() {
    let header = signed(&[0; 32], PING_BODY);
    for index in 0..PING_BODY.len() {
        for bit in 0..8 {
            let mut body = PING_BODY.to_vec();
            body[index] ^= 1 << bit;
            assert!(!verify(&secret(), &body, Some(&header)), "byte {index}, bit {bit}");
        }
    }
}

#[test]
fn upper_case_digits_fail() {
    let header = signed(&[0; 32], PING_BODY);
    let upper = format!("sha256={}", header["sha256=".len()..].to_uppercase());
    assert!(header != upper);
    assert!(!verify(&secret(), PING_BODY, Some(&upper)));
}

#[test]
fn malformed_headers_fail() {
    let header = signed(&[0; 32], PING_BODY);
    let digits = &header["sha256=".len()..];
    assert!(!verify(&secret(), PING_BODY, None));
    assert!(!verify(&secret(), PING_BODY, Some("")));
    assert!(!verify(&secret(), PING_BODY, Some("sha256=")));
    assert!(!verify(&secret(), PING_BODY, Some(digits)));
    assert!(!verify(&secret(), PING_BODY, Some(&format!("sha1={digits}"))));
    assert!(!verify(&secret(), PING_BODY, Some(&format!("SHA256={digits}"))));
    assert!(!verify(&secret(), PING_BODY, Some(&format!("{header}00"))));
    assert!(!verify(&secret(), PING_BODY, Some(&header[..header.len() - 1])));
    assert!(!verify(&secret(), PING_BODY, Some(&format!(" {header}"))));
    assert!(!verify(
        &secret(),
        PING_BODY,
        Some("sha256=zz82be93bde6dbf23a367b08531ab2177ea71d7672317152b6bea94ed59c8471"),
    ));
}

#[test]
fn another_secret_fails() {
    let header = signed(&[1; 32], PING_BODY);
    assert!(!verify(&secret(), PING_BODY, Some(&header)));
}

#[test]
fn verification_is_repeatable() {
    let header = signed(&[0; 32], PING_BODY);
    let first = verify(&secret(), PING_BODY, Some(&header));
    let second = verify(&secret(), PING_BODY, Some(&header));
    assert!(first && second);
}
