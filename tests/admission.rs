use nauthz::codec::{canonicalize, InvalidKey};
use nauthz::config::{Settings, DEFAULT_PORT};
use nauthz::engine::{decimal_text, evaluate, Decision, Event};
use nauthz::policy::PolicyConfig;
use nauthz::service::{
    content_sample, AdmissionRecord, EventAuthz, EventReply, EventRequest, Nip05, RequestError,
    Verdict,
};

const KEY_A_HEX: &str = "3bf0c63fcb93463407af97a5e5ee64fa883d107ef9e558472c4eb9aaaefa459d";
const NPUB_A: &str = "npub180cvv07tjdrrgpa0j7j7tmnyl2yr6yr7l8j4s3evf6u64th6gkwsyjh6w6";
const KEY_G_HEX: &str = "79be667ef9dcbbac55a06295ce870b07029bfcdb2dce28d959f2815b16f81798";
const NPUB_G: &str = "npub10xlxvlhemja6c4dqv22uapctqupfhlxm9h8z3k2e72q4k9hcz7vqpkge6d";
const KEY_2G_HEX: &str = "c6047f9441ed7d6d3045406e95c07cd85c778e4b8cef3ca7abac09b95c709ee5";
const NPUB_2G: &str = "npub1ccz8l9zpa47k6vz9gphftsrumpw80rjt3nhnefat4symjhrsnmjs38mnyd";

fn bytes(hex: &str) -> Vec<u8> {
    (0..hex.len())
        .step_by(2)
        .map(|i| u8::from_str_radix(&hex[i..i + 2], 16).unwrap())
        .collect()
}

fn event(kind: u64, pubkey: Vec<u8>) -> Event {
    Event { kind, pubkey, content: String::new(), tags: Vec::new() }
}

fn policy(kinds: Vec<u64>, authors: Vec<&str>) -> PolicyConfig {
    PolicyConfig::new(kinds, authors.into_iter().map(String::from).collect())
}

fn deny_message(d: &Decision) -> String {
    match d {
        Decision::Deny(m) => m.clone(),
        Decision::Permit => panic!("expected a denial"),
    }
}

#[test]
fn canonicalize_known_keys() {
    assert_eq!(canonicalize(&bytes(KEY_A_HEX)), Ok(NPUB_A.to_string()));
    assert_eq!(canonicalize(&bytes(KEY_G_HEX)), Ok(NPUB_G.to_string()));
    assert_eq!(canonicalize(&bytes(KEY_2G_HEX)), Ok(NPUB_2G.to_string()));
}

#[test]
fn canonicalize_is_deterministic_and_injective() {
    let a1 = canonicalize(&bytes(KEY_G_HEX)).unwrap();
    let a2 = canonicalize(&bytes(KEY_G_HEX)).unwrap();
    let b = canonicalize(&bytes(KEY_2G_HEX)).unwrap();
    assert_eq!(a1, a2);
    assert_ne!(a1, b);
}

#[test]
fn canonicalize_rejects_wrong_lengths() {
    let key = bytes(KEY_G_HEX);
    assert_eq!(canonicalize(&key[..31]), Err(InvalidKey));
    let mut longer = key.clone();
    longer.push(0);
    assert_eq!(canonicalize(&longer), Err(InvalidKey));
    assert_eq!(canonicalize(&[]), Err(InvalidKey));
    assert_eq!(canonicalize(&vec![1u8; 64]), Err(InvalidKey));
}

#[test]
fn canonicalize_rejects_points_off_the_curve() {
    assert_eq!(canonicalize(&[0u8; 32]), Err(InvalidKey));
    assert_eq!(canonicalize(&[0xffu8; 32]), Err(InvalidKey));
    let mut five = [0u8; 32];
    five[31] = 5;
    assert_eq!(canonicalize(&five), Err(InvalidKey));
    let mut one = [0u8; 32];
    one[31] = 1;
    assert!(canonicalize(&one).is_ok());
}

#[test]
fn decimal_text_values() {
    assert_eq!(decimal_text(0), "0");
    assert_eq!(decimal_text(7), "7");
    assert_eq!(decimal_text(10), "10");
    assert_eq!(decimal_text(30023), "30023");
    assert_eq!(decimal_text(u64::MAX), "18446744073709551615");
}

#[test]
fn policy_lookups() {
    let p = policy(vec![0, 1, 30023], vec![NPUB_A]);
    assert!(p.kind_allowed(0));
    assert!(p.kind_allowed(30023));
    assert!(!p.kind_allowed(2));
    assert!(p.author_allowed(&NPUB_A.to_string()));
    assert!(!p.author_allowed(&NPUB_G.to_string()));
    let empty = policy(vec![], vec![]);
    assert!(!empty.kind_allowed(0));
    assert!(!empty.author_allowed(&NPUB_A.to_string()));
}

#[test]
fn scenario_permit_allowed_kind_and_author() {
    let p = policy(vec![1], vec![NPUB_A]);
    let d = evaluate(&event(1, bytes(KEY_A_HEX)), &p);
    assert!(d.is_permit());
    assert_eq!(d.message_text(), None);
}

#[test]
fn scenario_deny_kind() {
    let p = policy(vec![1], vec![NPUB_A]);
    let d = evaluate(&event(2, bytes(KEY_A_HEX)), &p);
    assert!(!d.is_permit());
    assert_eq!(deny_message(&d), "Kind 2 not permitted");
    assert!(deny_message(&d).contains('2'));
}

#[test]
fn scenario_deny_author() {
    let p = policy(vec![1], vec![NPUB_A]);
    let d = evaluate(&event(1, bytes(KEY_G_HEX)), &p);
    assert_eq!(deny_message(&d), format!("Author {} not permitted", NPUB_G));
    assert!(deny_message(&d).contains(NPUB_G));
}

#[test]
fn kind_failure_is_reported_before_author_failure() {
    let p = policy(vec![1], vec![NPUB_A]);
    let d = evaluate(&event(30023, bytes(KEY_G_HEX)), &p);
    assert_eq!(deny_message(&d), "Kind 30023 not permitted");
}

#[test]
fn empty_author_set_denies_everyone() {
    let p = policy(vec![0, 1, 2, 3, 30023], vec![]);
    for key in [KEY_A_HEX, KEY_G_HEX, KEY_2G_HEX] {
        let d = evaluate(&event(1, bytes(key)), &p);
        let id = canonicalize(&bytes(key)).unwrap();
        assert_eq!(deny_message(&d), format!("Author {} not permitted", id));
    }
}

#[test]
fn kind_zero_is_an_ordinary_kind() {
    let p = policy(vec![0], vec![NPUB_G]);
    assert!(evaluate(&event(0, bytes(KEY_G_HEX)), &p).is_permit());
    let q = policy(vec![1], vec![NPUB_G]);
    assert_eq!(deny_message(&evaluate(&event(0, bytes(KEY_G_HEX)), &q)), "Kind 0 not permitted");
}

#[test]
fn content_and_tags_do_not_matter() {
    let p = policy(vec![1], vec![NPUB_G]);
    let mut e = event(1, bytes(KEY_G_HEX));
    assert!(evaluate(&e, &p).is_permit());
    e.content = "x".repeat(500);
    e.tags = vec![vec!["p".to_string(), "abc".to_string()], vec![]];
    assert!(evaluate(&e, &p).is_permit());
}

#[test]
fn invalid_key_is_denied_without_panic() {
    let p = policy(vec![1], vec![NPUB_G]);
    let d = evaluate(&event(1, vec![1, 2, 3]), &p);
    assert_eq!(deny_message(&d), "Invalid author key");
    let d = evaluate(&event(1, vec![0u8; 32]), &p);
    assert_eq!(deny_message(&d), "Invalid author key");
}

#[test]
fn settings_defaults() {
    let s = Settings::default();
    assert_eq!(s.network.port, 50051);
    assert_eq!(s.network.port, DEFAULT_PORT);
    assert_eq!(s.network.address, "[::1]");
    assert_eq!(s.rules.allowed_kinds, vec![0, 1, 2, 3, 30023]);
    assert!(s.rules.allowed_authors.is_empty());
}

#[test]
fn settings_new_overlays_given_values() {
    let s = Settings::new(None, None, None, None);
    assert_eq!(s.network.port, 50051);
    assert_eq!(s.rules.allowed_kinds, vec![0, 1, 2, 3, 30023]);
    let s = Settings::new(Some(6000), Some("0.0.0.0".to_string()), Some(vec![7]), Some(vec![NPUB_A.to_string()]));
    assert_eq!(s.network.port, 6000);
    assert_eq!(s.network.address, "0.0.0.0");
    assert_eq!(s.rules.allowed_kinds, vec![7]);
    assert_eq!(s.rules.allowed_authors, vec![NPUB_A.to_string()]);
    let p = s.policy();
    assert_eq!(p.allowed_kinds, vec![7]);
    assert_eq!(p.allowed_authors, vec![NPUB_A.to_string()]);
}

#[test]
fn content_sample_keeps_forty_characters() {
    assert_eq!(content_sample(&String::new()), "");
    assert_eq!(content_sample(&"short".to_string()), "short");
    let long: String = "é".repeat(45);
    assert_eq!(content_sample(&long), "é".repeat(40));
    let exact = "a".repeat(40);
    assert_eq!(content_sample(&exact), exact);
}

#[test]
fn request_without_event_is_rejected() {
    let svc = EventAuthz::new(policy(vec![1], vec![NPUB_A]));
    let req = EventRequest { event: None, origin: Some("relay".to_string()), nip05: None };
    assert!(matches!(svc.event_admit(&req), Err(RequestError::MissingEvent)));
}

#[test]
fn request_is_answered_and_recorded() {
    let svc = EventAuthz::new(policy(vec![1], vec![NPUB_A]));
    let mut e = event(1, bytes(KEY_A_HEX));
    e.content = "z".repeat(50);
    e.tags = vec![vec!["e".to_string()], vec!["p".to_string()], vec![]];
    let req = EventRequest {
        event: Some(e),
        origin: Some("wss://relay.example".to_string()),
        nip05: Some(Nip05 { domain: "example.com".to_string() }),
    };
    let (reply, record) = svc.event_admit(&req).unwrap();
    assert_eq!(reply.decision, Verdict::Permit);
    assert_eq!(reply.message, None);
    assert_eq!(record.kind, 1);
    assert_eq!(record.origin.as_deref(), Some("wss://relay.example"));
    assert_eq!(record.author.as_deref(), Some(NPUB_A));
    assert_eq!(record.nip05_domain.as_deref(), Some("example.com"));
    assert_eq!(record.tag_count, 3);
    assert_eq!(record.content_sample, "z".repeat(40));

    let req = EventRequest { event: Some(event(5, bytes(KEY_A_HEX))), origin: None, nip05: None };
    let (reply, record) = svc.event_admit(&req).unwrap();
    assert_eq!(reply.decision, Verdict::Deny);
    assert_eq!(reply.message.as_deref(), Some("Kind 5 not permitted"));
    assert_eq!(record.origin, None);
    assert_eq!(record.nip05_domain, None);
}

#[test]
fn record_of_invalid_key_has_no_author() {
    let e = event(1, vec![9u8; 31]);
    let record = AdmissionRecord::of_request(&e, &None, &None);
    assert_eq!(record.author, None);
    assert_eq!(record.tag_count, 0);
}

#[test]
fn reply_from_decision() {
    let r = EventReply::from_decision(Decision::Permit);
    assert_eq!(r.decision, Verdict::Permit);
    assert_eq!(r.message, None);
    let r = EventReply::from_decision(Decision::Deny("no".to_string()));
    assert_eq!(r.decision, Verdict::Deny);
    assert_eq!(r.message.as_deref(), Some("no"));
}
