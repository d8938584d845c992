use actix_tls::{cert_store_from, webpki_roots_cert_store, TrustAnchor};

fn with_header(subject: &[u8]) -> Vec<u8> {
    assert!(subject.len() < 0x80);
    let mut der = vec![0x30u8, subject.len() as u8];
    der.extend_from_slice(subject);
    der
}

#[test]
fn no_anchors_give_an_empty_store() {
    let store = cert_store_from(&[]);
    assert!(store.is_empty());
    assert_eq!(store.len(), 0);
}

#[test]
fn store_holds_the_anchors_in_order() {
    let anchors = [
        TrustAnchor { subject: b"first", spki: b"key-1", name_constraints: None },
        TrustAnchor { subject: b"second", spki: b"key-2", name_constraints: Some(b"nc") },
        TrustAnchor { subject: b"third", spki: b"key-3", name_constraints: None },
    ];
    let store = cert_store_from(&anchors);
    assert_eq!(store.len(), 3);
    assert_eq!(store.roots[0].subject().as_ref(), with_header(b"first").as_slice());
    assert_eq!(store.roots[1].subject().as_ref(), with_header(b"second").as_slice());
    assert_eq!(store.roots[2].subject().as_ref(), with_header(b"third").as_slice());
}

#[test]
fn store_keeps_repeated_anchors() {
    let anchors = [
        TrustAnchor { subject: b"twin", spki: b"key", name_constraints: None },
        TrustAnchor { subject: b"twin", spki: b"key", name_constraints: None },
    ];
    let store = cert_store_from(&anchors);
    assert_eq!(store.len(), 2);
    assert_eq!(store.roots[0].subject().as_ref(), store.roots[1].subject().as_ref());
}

#[test]
fn store_keeps_every_part_of_an_anchor() {
    let anchors = [TrustAnchor {
        subject: b"subject",
        spki: b"public-key",
        name_constraints: Some(b"constraints"),
    }];
    let store = cert_store_from(&anchors);
    let shown = format!("{:?}", store.roots[0]);
    let listed = |bytes: &[u8]| format!("{:?}", bytes.to_vec());
    assert!(shown.contains(&listed(b"public-key")));
    assert!(shown.contains(&listed(b"constraints")));
    assert!(shown.contains("subject_dn_header_len: 2"));
}

#[test]
fn default_store_has_one_entry_for_each_root() {
    let store = webpki_roots_cert_store();
    assert!(!store.is_empty());
    assert_eq!(store.len(), webpki_roots::TLS_SERVER_ROOTS.len());
}

#[test]
fn default_store_keeps_the_order_of_the_roots() {
    let store = webpki_roots_cert_store();
    let mut index = 0;
    while index < webpki_roots::TLS_SERVER_ROOTS.len() {
        let root = &webpki_roots::TLS_SERVER_ROOTS[index];
        let subject = store.roots[index].subject().as_ref().to_vec();
        assert!(subject.ends_with(root.subject));
        assert!(subject.len() > root.subject.len());
        assert_eq!(subject[0], 0x30);
        index += 1;
    }
}

#[test]
fn default_store_is_the_same_every_time() {
    let first = webpki_roots_cert_store();
    let second = webpki_roots_cert_store();
    assert_eq!(first.len(), second.len());
    let mut index = 0;
    while index < first.len() {
        assert_eq!(first.roots[index].subject().as_ref(), second.roots[index].subject().as_ref());
        index += 1;
    }
}
