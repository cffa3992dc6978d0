use base64::Engine;
use ed25519_dalek::SigningKey;
use plotfed::instance::{
    ExternalDomain, Instance, InstanceDomain, InstanceError, SendInstance,
};
use plotfed::keys::{same_bytes, to_array32, to_array64, KeyFormatError, PublicKey};

const RFC_PUBLIC: [u8; 32] = [
    215, 90, 152, 1, 130, 177, 10, 183, 213, 75, 254, 211, 201, 100, 7, 58, 14, 225, 114, 243, 218,
    166, 35, 37, 175, 2, 26, 104, 247, 7, 81, 26,
];

fn b64(bytes: &[u8]) -> String {
    base64::engine::general_purpose::URL_SAFE.encode(bytes)
}

fn domain(name: &str) -> ExternalDomain {
    ExternalDomain::convert(name.to_string()).unwrap()
}

#[test]
fn key_is_taken_from_its_bytes() {
    let key = PublicKey::from_bytes(&RFC_PUBLIC).unwrap();
    assert_eq!(key.bytes, RFC_PUBLIC);
    assert_eq!(PublicKey::from_bytes(&RFC_PUBLIC[..31]), None);
    assert_eq!(PublicKey::from_bytes(&[]), None);
    let mut long = RFC_PUBLIC.to_vec();
    long.push(0);
    assert_eq!(PublicKey::from_bytes(&long), None);
}

#[test]
fn key_must_be_a_point_of_the_curve() {
    let mut accepted = 0;
    let mut refused = 0;
    for b in 0..=255u8 {
        let mut bytes = [b; 32];
        bytes[0] = b.wrapping_mul(7);
        let ours = PublicKey::from_bytes(&bytes).is_some();
        let theirs = ed25519_dalek::VerifyingKey::from_bytes(&bytes).is_ok();
        assert_eq!(ours, theirs, "{:?}", bytes);
        if ours {
            accepted += 1;
        } else {
            refused += 1;
        }
    }
    assert!(accepted > 0);
    assert!(refused > 0);
}

#[test]
fn key_text_is_url_safe_base64() {
    let key = PublicKey { bytes: [0xfb, 0xff, 0xfe, 0, 0, 0, 0, 0, 0, 0, 0, 0, 0, 0, 0, 0, 0, 0, 0, 0, 0, 0, 0, 0, 0, 0, 0, 0, 0, 0, 0, 0] };
    assert_eq!(key.encode(), "-__-AAAAAAAAAAAAAAAAAAAAAAAAAAAAAAAAAAAAAAA=");
    let mut counting = [0u8; 32];
    for i in 0..32 {
        counting[i] = i as u8;
    }
    assert_eq!(
        PublicKey { bytes: counting }.encode(),
        "AAECAwQFBgcICQoLDA0ODxAREhMUFRYXGBkaGxwdHh8="
    );
}

#[test]
fn key_text_is_read_back() {
    let key = PublicKey::from_bytes(&RFC_PUBLIC).unwrap();
    assert_eq!(PublicKey::decode(&key.encode()), Ok(key));
    assert_eq!(PublicKey::decode(&b64(&RFC_PUBLIC)), Ok(key));
}

#[test]
fn key_text_has_three_ways_to_be_wrong() {
    assert_eq!(PublicKey::decode("not base64!"), Err(KeyFormatError::Encoding));
    assert_eq!(PublicKey::decode("+/+/"), Err(KeyFormatError::Encoding));
    assert_eq!(PublicKey::decode("AAECAwQFBgcICQoLDA0ODxAREhMUFRYXGBkaGxwdHh8"), Err(KeyFormatError::Encoding));
    assert_eq!(PublicKey::decode(""), Err(KeyFormatError::Length));
    assert_eq!(PublicKey::decode(&b64(&[1, 2, 3])), Err(KeyFormatError::Length));
    assert_eq!(PublicKey::decode(&b64(&[0; 33])), Err(KeyFormatError::Length));
    let mut no_point = None;
    for b in 0..=255u8 {
        if ed25519_dalek::VerifyingKey::from_bytes(&[b; 32]).is_err() {
            no_point = Some([b; 32]);
            break;
        }
    }
    assert_eq!(PublicKey::decode(&b64(&no_point.unwrap())), Err(KeyFormatError::Point));
}

#[test]
fn keys_are_the_same_by_their_bytes() {
    let a = PublicKey { bytes: [1; 32] };
    let mut other = [1; 32];
    other[31] = 2;
    assert!(a.same(&PublicKey { bytes: [1; 32] }));
    assert!(!a.same(&PublicKey { bytes: other }));
    assert!(same_bytes(&[9; 32], &[9; 32]));
    assert!(!same_bytes(&[9; 32], &other));
}

#[test]
fn bytes_are_copied_into_arrays_of_their_length() {
    assert_eq!(to_array32(&[5; 32]), Some([5; 32]));
    assert_eq!(to_array32(&[5; 31]), None);
    assert_eq!(to_array32(&[5; 33]), None);
    assert_eq!(to_array64(&[6; 64]), Some([6; 64]));
    assert_eq!(to_array64(&[6; 63]), None);
    assert_eq!(to_array64(&[6; 65]), None);
    let mut v = Vec::new();
    for i in 0..32u8 {
        v.push(i);
    }
    assert_eq!(to_array32(&v).unwrap().to_vec(), v);
}

#[test]
fn domain_of_labels_is_taken() {
    for name in ["example.com", "a", "a.b.c", "xn--80ak6aa92e.com", "host:8080", "a-b.c-d", "-a.b-", "0.1", "example.com."] {
        let d = ExternalDomain::convert(name.to_string());
        assert_eq!(d, Ok(ExternalDomain { name: name.to_string() }), "{}", name);
    }
}

#[test]
fn domain_with_a_fault_is_refused() {
    for name in [
        "", ".", "..", "a..b", ".a", "a..", "Example.com", "a b", "a_b", "a/b", "münchen.de",
        "a.b.", "a,b",
    ] {
        let d = ExternalDomain::convert(name.to_string());
        let theirs = {
            let allowed = ascii_domain::char_set::AllowedAscii::try_from_unique_ascii(
                b"-0123456789abcdefghijklmnopqrstuvwxyz:".to_owned(),
            )
            .unwrap();
            ascii_domain::dom::Domain::try_from_bytes(name, &allowed).is_ok()
        };
        assert_eq!(d.is_ok(), theirs, "{}", name);
    }
    assert!(ExternalDomain::convert("a.b.".to_string()).is_ok());
    assert!(ExternalDomain::convert("Example.com".to_string()).is_err());
    assert!(ExternalDomain::convert("a..b".to_string()).is_err());
    assert!(ExternalDomain::convert(String::new()).is_err());
}

#[test]
fn domain_labels_and_length_are_bounded() {
    let label63 = "a".repeat(63);
    let label64 = "a".repeat(64);
    assert!(ExternalDomain::convert(label63.clone()).is_ok());
    assert!(ExternalDomain::convert(label64.clone()).is_err());
    assert!(ExternalDomain::convert(format!("{}.{}", label63, label63)).is_ok());
    assert!(ExternalDomain::convert(format!("{}.{}", label63, label64)).is_err());
    let part = "a".repeat(49);
    let len253 = format!("{0}.{0}.{0}.{0}.{0}.aaa", part);
    assert_eq!(len253.len(), 253);
    assert!(ExternalDomain::convert(len253.clone()).is_ok());
    assert!(ExternalDomain::convert(format!("{}.", len253)).is_ok());
    assert!(ExternalDomain::convert(format!("{}a", len253)).is_err());
}

#[test]
fn domain_is_compared_without_its_closing_dot() {
    assert_eq!(domain("example.com.").text(), "example.com");
    assert_eq!(domain("example.com").text(), "example.com");
    assert_eq!(domain("example.com.").inner(), "example.com.");
    assert_eq!(domain("example.com.").into_inner(), "example.com.");
    assert!(domain("example.com.").same(&domain("example.com")));
    assert!(!domain("example.com").same(&domain("example.org")));
    let a = InstanceDomain::External(domain("a.b"));
    assert!(a.same(&InstanceDomain::External(domain("a.b."))));
    assert!(!a.same(&InstanceDomain::Current));
    assert!(!InstanceDomain::Current.same(&a));
    assert!(InstanceDomain::Current.same(&InstanceDomain::Current));
}

#[test]
fn stored_domain_may_be_none() {
    assert_eq!(InstanceDomain::from_option(None), Ok(InstanceDomain::Current));
    assert_eq!(
        InstanceDomain::from_option(Some("peer.example".to_string())),
        Ok(InstanceDomain::External(domain("peer.example")))
    );
    assert!(InstanceDomain::from_option(Some("Peer Example".to_string())).is_err());
}

#[test]
fn stored_instance_is_read_from_its_row() {
    let inst = Instance::from_row(RFC_PUBLIC.to_vec(), Some("peer.example".to_string())).unwrap();
    assert_eq!(inst.key.bytes, RFC_PUBLIC);
    assert_eq!(inst.domain, InstanceDomain::External(domain("peer.example")));
    let here = Instance::from_row(RFC_PUBLIC.to_vec(), None).unwrap();
    assert_eq!(here.domain, InstanceDomain::Current);
    assert_eq!(
        Instance::from_row(vec![1, 2, 3], Some("peer.example".to_string())),
        Err(InstanceError::Key(KeyFormatError::Length))
    );
    assert_eq!(
        Instance::from_row(RFC_PUBLIC.to_vec(), Some("Peer".to_string())),
        Err(InstanceError::Domain)
    );
    let mut no_point = None;
    for b in 0..=255u8 {
        if ed25519_dalek::VerifyingKey::from_bytes(&[b; 32]).is_err() {
            no_point = Some(vec![b; 32]);
            break;
        }
    }
    assert_eq!(
        Instance::from_row(no_point.unwrap(), None),
        Err(InstanceError::Key(KeyFormatError::Point))
    );
}

#[test]
fn instance_is_written_as_domain_and_key() {
    let key = PublicKey::from_bytes(&RFC_PUBLIC).unwrap();
    let there = Instance::new(key, InstanceDomain::External(domain("peer.example.")));
    assert_eq!(there.encode("here.example"), format!("peer.example;{}", b64(&RFC_PUBLIC)));
    let here = Instance::new(key, InstanceDomain::Current);
    assert_eq!(here.encode("here.example"), format!("here.example;{}", b64(&RFC_PUBLIC)));
    assert_eq!(
        here.encode("h"),
        "h;11qYAYKxCrfVS_7TyWQHOg7hcvPapiMlrwIaaPcHURo="
    );
}

#[test]
fn instances_are_the_same_by_key_and_place() {
    let key = PublicKey::from_bytes(&RFC_PUBLIC).unwrap();
    let other = PublicKey::from_bytes(&SigningKey::from_bytes(&[4; 32]).verifying_key().to_bytes())
        .unwrap();
    let a = Instance::new(key, InstanceDomain::External(domain("a.b")));
    assert!(a.same(&Instance::new(key, InstanceDomain::External(domain("a.b.")))));
    assert!(!a.same(&Instance::new(other, InstanceDomain::External(domain("a.b")))));
    assert!(!a.same(&Instance::new(key, InstanceDomain::External(domain("a.c")))));
    assert!(!a.same(&Instance::new(key, InstanceDomain::Current)));
}

#[test]
fn claim_is_read_as_an_external_instance() {
    let claim = SendInstance { key: b64(&RFC_PUBLIC), domain: "peer.example".to_string() };
    let inst = claim.parse().unwrap();
    assert_eq!(inst.key.bytes, RFC_PUBLIC);
    assert_eq!(inst.domain, InstanceDomain::External(domain("peer.example")));
}

#[test]
fn claim_with_a_fault_is_refused() {
    let good_key = b64(&RFC_PUBLIC);
    let parse = |key: &str, domain: &str| {
        SendInstance { key: key.to_string(), domain: domain.to_string() }.parse()
    };
    assert_eq!(parse("???", "peer.example"), Err(InstanceError::Key(KeyFormatError::Encoding)));
    assert_eq!(parse("AAAA", "peer.example"), Err(InstanceError::Key(KeyFormatError::Length)));
    assert_eq!(parse(&good_key, "Peer Example"), Err(InstanceError::Domain));
    assert_eq!(parse(&good_key, ""), Err(InstanceError::Domain));
    assert_eq!(parse("???", ""), Err(InstanceError::Key(KeyFormatError::Encoding)));
}
