use latosol::config::tls::{
    DirEntry, DuplicatePrivateKeyError, LoadError, NoPrivateKeyError, PemItem, TlsParamsBuilder,
    read_params,
};
use latosol::server::{Certificate, PrivateKey};

/// One PEM block of the given section kind over a base64 body.
fn pem(section: &str, b64: &str) -> String {
    format!("-----BEGIN {section}-----\n{b64}\n-----END {section}-----\n")
}

// AQID, BAUG, BwgJ, CgsM decode to [1,2,3], [4,5,6], [7,8,9], [10,11,12].

#[test]
fn chain_and_key_across_files() {
    // The end-to-end credential layout: chain.pem with two certificate
    // blocks, key.pem with one PKCS8 key.
    let chain = format!("{}{}", pem("CERTIFICATE", "AQID"), pem("CERTIFICATE", "BAUG"));
    let key = pem("PRIVATE KEY", "BwgJ");
    let entries = vec![
        DirEntry::File(chain.into_bytes()),
        DirEntry::File(key.into_bytes()),
    ];
    let params = read_params(&entries).unwrap();
    assert_eq!(params.certificates.len(), 2);
    assert_eq!(params.certificates[0], Certificate(vec![1, 2, 3]));
    assert_eq!(params.certificates[1], Certificate(vec![4, 5, 6]));
    assert_eq!(params.private_key, PrivateKey(vec![7, 8, 9]));
}

#[test]
fn chain_order_follows_scan_and_appearance_order() {
    // A key between certificates, split over files: the chain keeps the
    // concatenation order of file scan order and in-file appearance order.
    let first = format!("{}{}", pem("CERTIFICATE", "BAUG"), pem("RSA PRIVATE KEY", "BwgJ"));
    let second = pem("CERTIFICATE", "AQID");
    let entries = vec![
        DirEntry::File(first.into_bytes()),
        DirEntry::File(second.into_bytes()),
    ];
    let params = read_params(&entries).unwrap();
    assert_eq!(params.certificates.len(), 2);
    assert_eq!(params.certificates[0], Certificate(vec![4, 5, 6]));
    assert_eq!(params.certificates[1], Certificate(vec![1, 2, 3]));
    assert_eq!(params.private_key, PrivateKey(vec![7, 8, 9]));
}

#[test]
fn empty_directory_fails_without_key() {
    let entries: Vec<DirEntry> = vec![];
    let r = read_params(&entries);
    assert_eq!(r.unwrap_err(), LoadError::NoPrivateKey(NoPrivateKeyError));
}

#[test]
fn certificates_only_fails_without_key() {
    let entries = vec![DirEntry::File(pem("CERTIFICATE", "AQID").into_bytes())];
    let r = read_params(&entries);
    assert_eq!(r.unwrap_err(), LoadError::NoPrivateKey(NoPrivateKeyError));
}

#[test]
fn duplicate_keys_in_one_file() {
    let both = format!("{}{}", pem("RSA PRIVATE KEY", "BwgJ"), pem("PRIVATE KEY", "CgsM"));
    let entries = vec![DirEntry::File(both.into_bytes())];
    let r = read_params(&entries);
    assert_eq!(
        r.unwrap_err(),
        LoadError::DuplicatePrivateKey(DuplicatePrivateKeyError)
    );
}

#[test]
fn duplicate_keys_across_files() {
    // The same failure whichever file the second key appears in.
    let entries = vec![
        DirEntry::File(pem("PRIVATE KEY", "BwgJ").into_bytes()),
        DirEntry::File(pem("RSA PRIVATE KEY", "CgsM").into_bytes()),
    ];
    let r = read_params(&entries);
    assert_eq!(
        r.unwrap_err(),
        LoadError::DuplicatePrivateKey(DuplicatePrivateKeyError)
    );

    let swapped = vec![
        DirEntry::File(pem("RSA PRIVATE KEY", "CgsM").into_bytes()),
        DirEntry::File(pem("PRIVATE KEY", "BwgJ").into_bytes()),
    ];
    assert_eq!(
        read_params(&swapped).unwrap_err(),
        LoadError::DuplicatePrivateKey(DuplicatePrivateKeyError)
    );
}

#[test]
fn subdirectory_is_skipped() {
    let with_dir = vec![
        DirEntry::File(pem("CERTIFICATE", "AQID").into_bytes()),
        DirEntry::Subdirectory,
        DirEntry::File(pem("PRIVATE KEY", "BwgJ").into_bytes()),
    ];
    let without_dir = vec![
        DirEntry::File(pem("CERTIFICATE", "AQID").into_bytes()),
        DirEntry::File(pem("PRIVATE KEY", "BwgJ").into_bytes()),
    ];
    let a = read_params(&with_dir).unwrap();
    let b = read_params(&without_dir).unwrap();
    assert_eq!(a.certificates, b.certificates);
    assert_eq!(a.private_key, b.private_key);
}

#[test]
fn unreadable_file_is_skipped() {
    let entries = vec![
        DirEntry::Unreadable,
        DirEntry::File(pem("CERTIFICATE", "AQID").into_bytes()),
        DirEntry::File(pem("PRIVATE KEY", "BwgJ").into_bytes()),
    ];
    let params = read_params(&entries).unwrap();
    assert_eq!(params.certificates.len(), 1);
    assert_eq!(params.private_key, PrivateKey(vec![7, 8, 9]));
}

#[test]
fn ec_key_alone_does_not_satisfy_key_requirement() {
    let entries = vec![DirEntry::File(pem("EC PRIVATE KEY", "CgsM").into_bytes())];
    let r = read_params(&entries);
    assert_eq!(r.unwrap_err(), LoadError::NoPrivateKey(NoPrivateKeyError));
}

#[test]
fn ec_key_is_ignored_beside_a_supported_key() {
    let all = format!(
        "{}{}{}",
        pem("CERTIFICATE", "AQID"),
        pem("EC PRIVATE KEY", "CgsM"),
        pem("PRIVATE KEY", "BwgJ")
    );
    let entries = vec![DirEntry::File(all.into_bytes())];
    let params = read_params(&entries).unwrap();
    assert_eq!(params.certificates.len(), 1);
    assert_eq!(params.private_key, PrivateKey(vec![7, 8, 9]));
}

#[test]
fn crl_block_is_ignored() {
    let both = format!("{}{}", pem("X509 CRL", "DQ4P"), pem("PRIVATE KEY", "BwgJ"));
    let entries = vec![DirEntry::File(both.into_bytes())];
    let params = read_params(&entries).unwrap();
    assert_eq!(params.certificates.len(), 0);
    assert_eq!(params.private_key, PrivateKey(vec![7, 8, 9]));
}

#[test]
fn undecodable_pem_fails_the_load() {
    let bad = pem("CERTIFICATE", "!!!not base64!!!");
    let entries = vec![DirEntry::File(bad.into_bytes())];
    let r = read_params(&entries);
    assert_eq!(r.unwrap_err(), LoadError::InvalidPemFile);
}

#[test]
fn builder_records_first_key_and_rejects_second() {
    let mut builder = TlsParamsBuilder::new();
    builder.add_item(PemItem::Certificate(vec![1, 2, 3])).unwrap();
    builder.add_item(PemItem::RsaKey(vec![7, 8, 9])).unwrap();
    builder.add_item(PemItem::EcKey(vec![10, 11, 12])).unwrap();
    builder.add_item(PemItem::Other).unwrap();
    let second = builder.add_item(PemItem::Pkcs8Key(vec![13, 14, 15]));
    assert_eq!(second.unwrap_err(), DuplicatePrivateKeyError);
    let params = builder.complete().unwrap();
    assert_eq!(params.certificates, vec![Certificate(vec![1, 2, 3])]);
    assert_eq!(params.private_key, PrivateKey(vec![7, 8, 9]));
}

#[test]
fn builder_without_key_fails_to_complete() {
    let mut builder = TlsParamsBuilder::new();
    builder.add_item(PemItem::Certificate(vec![1, 2, 3])).unwrap();
    let r = builder.complete();
    assert_eq!(r.unwrap_err(), NoPrivateKeyError);
}

#[test]
fn loader_error_messages() {
    assert_eq!(
        DuplicatePrivateKeyError.message(),
        "More than one private key was provided"
    );
    assert_eq!(NoPrivateKeyError.message(), "No private key was provided");

    assert_eq!(
        LoadError::DuplicatePrivateKey(DuplicatePrivateKeyError).message(),
        "More than one private key was provided"
    );
    assert_eq!(
        LoadError::NoPrivateKey(NoPrivateKeyError).message(),
        "No private key was provided"
    );
    assert_eq!(
        LoadError::InvalidPemFile.message(),
        "A credential file held PEM data that could not be decoded"
    );
}
