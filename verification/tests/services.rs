use std::collections::BTreeMap;
use txbuilder::amount::TokenId;
use txbuilder::database::{Error, LogLevel, MonitorData};
use txbuilder::decimal::decimal_string;
use txbuilder::fee_map::FeeMap;
use txbuilder::key_image::{
    check_key_images_request, KeyImage, KeyImageQuery, KeyImageQueryError, KeyImageResult,
    KeyImageResultExtension,
};
use txbuilder::overseer::{ingest_summary, IngestAnswer, OverseerSwitch};
use txbuilder::rpc::{
    decode_to_rpc_err, deser_to_rpc_err, encode_to_rpc_err, report_err_with_code,
    rpc_database_err, rpc_enclave_err, rpc_internal_error, rpc_invalid_arg_error,
    rpc_out_of_range_error, rpc_permissions_error, ser_to_rpc_err, RpcStatusCode,
};
use txbuilder::server_cert_reloader::{
    CertificateRequestType, ServerCertReloader, ServerCertReloaderError,
    HARDCODED_CLIENT_ROOT_CERT,
};
use txbuilder::uri::{destination_for, test_client_uri, Destination, QueryPair, Uri, UriParseError};
use txbuilder::x64::{FromX64, IntelLayout, ToX64, INTEL_U16_SIZE, INTEL_U32_SIZE};

fn digest_bytes() -> [u8; 32] {
    let mut digest = [0u8; 32];
    for (i, b) in digest.iter_mut().enumerate() {
        *b = (i as u8).wrapping_mul(9).wrapping_add(0xa0);
    }
    digest
}

#[test]
fn fee_map_defaults_to_the_base_token() {
    let fees = FeeMap::fees_or_default(None);
    assert_eq!(fees.len(), 1);
    assert_eq!(fees.get(&0), Some(&400_000_000));

    let fee_map = FeeMap::from_parts(fees, &digest_bytes());
    assert_eq!(fee_map.get_fee_for_token(&TokenId::mob()), Some(400_000_000));
    assert_eq!(fee_map.get_fee_for_token(&TokenId::new(1)), None);
}

#[test]
fn fee_map_digest_is_lower_case_hex() {
    let mut digest = [0u8; 32];
    digest[0] = 0x00;
    digest[1] = 0x09;
    digest[2] = 0x0a;
    digest[3] = 0xff;
    digest[4] = 0x1b;
    digest[31] = 0xc4;
    let fee_map = FeeMap::from_parts(BTreeMap::new(), &digest);
    let text = fee_map.get_digest_str();
    assert_eq!(text.len(), 64);
    assert_eq!(&text[..10], "00090aff1b");
    assert_eq!(&text[62..], "c4");
    assert_eq!(text, text.to_lowercase());
}

#[test]
fn fee_map_update_replaces_fees_and_digest() {
    let mut fee_map = FeeMap::from_parts(FeeMap::fees_or_default(None), &[0u8; 32]);
    assert_eq!(fee_map.get_digest_str(), "0".repeat(64));

    let mut fees: BTreeMap<u64, u64> = BTreeMap::new();
    fees.insert(0, 1000);
    fees.insert(7, 20);
    fee_map.update_or_default(Some(fees), &[0x11u8; 32]);
    assert_eq!(fee_map.get_fee_for_token(&TokenId::new(0)), Some(1000));
    assert_eq!(fee_map.get_fee_for_token(&TokenId::new(7)), Some(20));
    assert_eq!(fee_map.get_fee_for_token(&TokenId::new(8)), None);
    assert_eq!(fee_map.get_digest_str(), "11".repeat(32));

    fee_map.update_or_default(None, &[0xabu8; 32]);
    assert_eq!(fee_map.get_fee_for_token(&TokenId::new(0)), Some(400_000_000));
    assert_eq!(fee_map.get_fee_for_token(&TokenId::new(7)), None);
    assert_eq!(fee_map.get_digest_str(), "ab".repeat(32));
}

#[test]
fn key_image_status_follows_the_result_code() {
    let mut result = KeyImageResult {
        key_image: KeyImage { bytes: [3; 32] },
        spent_at: 77,
        timestamp: 5,
        timestamp_result_code: 1,
        key_image_result_code: 1,
    };
    assert_eq!(result.status(), Ok(Some(77)));
    result.key_image_result_code = 2;
    assert_eq!(result.status(), Ok(None));
    result.key_image_result_code = 3;
    assert_eq!(result.status(), Err(KeyImageQueryError::KeyImageError));
    result.key_image_result_code = 0;
    assert_eq!(result.status(), Err(KeyImageQueryError::UnknownStatus(0)));
    result.key_image_result_code = 4000;
    assert_eq!(result.status(), Err(KeyImageQueryError::UnknownStatus(4000)));
}

#[test]
fn key_images_are_asked_about_from_the_first_block() {
    let key_images = vec![KeyImage { bytes: [1; 32] }, KeyImage { bytes: [2; 32] }];
    let request = check_key_images_request(&key_images);
    assert_eq!(
        request.queries,
        vec![
            KeyImageQuery { key_image: KeyImage { bytes: [1; 32] }, start_block: 0 },
            KeyImageQuery { key_image: KeyImage { bytes: [2; 32] }, start_block: 0 },
        ]
    );
    assert!(check_key_images_request(&vec![]).queries.is_empty());
}

#[test]
fn overseer_says_what_it_did() {
    let mut switch = OverseerSwitch::new();
    assert_eq!(switch.get_status(), Ok("Fog Overseer is disabled.".to_string()));
    assert_eq!(switch.disable(), Ok("Fog Overseer was already disabled".to_string()));
    assert_eq!(switch.enable(), Ok("Fog Overseer was successfully enabled".to_string()));
    assert_eq!(switch.get_status(), Ok("Fog Overseer is enabled.".to_string()));
    assert_eq!(switch.enable(), Ok("Fog Overseer was already enabled".to_string()));
    assert_eq!(switch.disable(), Ok("Fog Overseer was successfully disabled".to_string()));
    assert!(!switch.is_enabled);
}

#[test]
fn ingest_summaries_name_the_node_that_failed() {
    let uri = "insecure-fog-ingest://node1.test:3226/";
    assert_eq!(ingest_summary(uri, IngestAnswer::Summary(17u32)), Ok(17));
    assert_eq!(
        ingest_summary::<u32>(uri, IngestAnswer::Malformed("bad key".to_string())),
        Err(format!("Could not construct ingest summary for {}: {}", uri, "bad key"))
    );
    assert_eq!(
        ingest_summary::<u32>(uri, IngestAnswer::Unreachable("timed out".to_string())),
        Err(format!(
            "Unable to retrieve ingest summary for node ({}): {}",
            uri, "timed out"
        ))
    );
}

#[test]
fn rpc_errors_carry_context_and_code() {
    let status = report_err_with_code("Ledger", "NotFound", RpcStatusCode::OutOfRange);
    assert_eq!(status.code, RpcStatusCode::OutOfRange);
    assert_eq!(status.details, Some("Ledger: NotFound".to_string()));

    let status = rpc_enclave_err("Sealed");
    assert_eq!(status.code, RpcStatusCode::InvalidArgument);
    assert_eq!(status.details, Some("Enclave Error: Sealed".to_string()));

    let status = rpc_database_err("Lmdb(NotFound)");
    assert_eq!(status.code, RpcStatusCode::Internal);
    assert_eq!(status.details, Some("Database Error: Lmdb(NotFound)".to_string()));

    assert_eq!(rpc_internal_error("a", "b").code, RpcStatusCode::Internal);
    assert_eq!(rpc_internal_error("a", "b").details, Some("a: b".to_string()));
    assert_eq!(rpc_invalid_arg_error("a", "b").code, RpcStatusCode::InvalidArgument);
    assert_eq!(rpc_permissions_error("a", "b").code, RpcStatusCode::PermissionDenied);
    assert_eq!(rpc_out_of_range_error("a", "b").code, RpcStatusCode::OutOfRange);
    assert_eq!(rpc_out_of_range_error("", "").details, Some(": ".to_string()));

    assert_eq!(ser_to_rpc_err("x").details, Some("Serialization: x".to_string()));
    assert_eq!(deser_to_rpc_err("x").details, Some("Deserialization: x".to_string()));
    assert_eq!(encode_to_rpc_err("x").details, Some("Encode: x".to_string()));
    assert_eq!(decode_to_rpc_err("x").details, Some("Decode: x".to_string()));
    assert_eq!(decode_to_rpc_err("x").code, RpcStatusCode::Internal);
}

#[test]
fn certificates_are_loaded_once_per_request() {
    let mut reloader = ServerCertReloader::new("server.crt".to_string(), "server.key".to_string());
    assert!(reloader.load_needed);

    let credentials =
        reloader.fetch(Ok(b"certificate".to_vec()), Ok(b"key".to_vec())).unwrap().unwrap();
    assert_eq!(credentials.cert, b"certificate".to_vec());
    assert_eq!(credentials.private_key, b"key".to_vec());
    assert_eq!(credentials.root_cert, HARDCODED_CLIENT_ROOT_CERT.as_bytes().to_vec());
    assert_eq!(credentials.request_type, CertificateRequestType::DontRequestClientCertificate);
    assert!(!reloader.load_needed);

    // Nothing is handed out until a reload is asked for.
    assert!(matches!(reloader.fetch(Ok(b"other".to_vec()), Ok(b"key".to_vec())), Ok(None)));

    reloader.request_reload();
    assert!(reloader.load_needed);
    let credentials =
        reloader.fetch(Ok(b"other".to_vec()), Ok(b"key".to_vec())).unwrap().unwrap();
    assert_eq!(credentials.cert, b"other".to_vec());
}

#[test]
fn a_failed_read_keeps_the_reload_pending() {
    let mut reloader = ServerCertReloader::new("server.crt".to_string(), "server.key".to_string());
    let missing = std::io::Error::new(std::io::ErrorKind::NotFound, "no certificate");
    let result = reloader.fetch(Err(missing), Ok(b"key".to_vec()));
    match result {
        Err(ServerCertReloaderError::IO(e)) => {
            assert_eq!(e.kind(), std::io::ErrorKind::NotFound)
        }
        _ => panic!("unexpected result"),
    }
    assert!(reloader.load_needed);

    let denied = std::io::Error::new(std::io::ErrorKind::PermissionDenied, "no key");
    let result = reloader.fetch(Ok(b"certificate".to_vec()), Err(denied));
    match result {
        Err(ServerCertReloaderError::IO(e)) => {
            assert_eq!(e.kind(), std::io::ErrorKind::PermissionDenied)
        }
        _ => panic!("unexpected result"),
    }
    assert!(reloader.load_needed);

    let from: ServerCertReloaderError =
        std::io::Error::new(std::io::ErrorKind::Other, "other").into();
    assert!(matches!(from, ServerCertReloaderError::IO(_)));
}

#[test]
fn the_root_certificate_is_a_pem_certificate() {
    assert!(HARDCODED_CLIENT_ROOT_CERT.starts_with("-----BEGIN CERTIFICATE-----\n"));
    assert!(HARDCODED_CLIENT_ROOT_CERT.ends_with("\n-----END CERTIFICATE-----"));
    assert_eq!(HARDCODED_CLIENT_ROOT_CERT.lines().count(), 30);
}

#[test]
fn numbers_are_written_in_decimal() {
    assert_eq!(decimal_string(0), "0");
    assert_eq!(decimal_string(7), "7");
    assert_eq!(decimal_string(10), "10");
    assert_eq!(decimal_string(1234567890), "1234567890");
    assert_eq!(decimal_string(u64::MAX), "18446744073709551615");
}

#[test]
fn blocks_are_processed_in_turn() {
    let mut monitor = MonitorData { first_block: 3, next_block: 10 };
    assert_eq!(monitor.block_processed(10, 0, 0), Ok(LogLevel::Debug));
    assert_eq!(monitor.next_block, 11);
    assert_eq!(monitor.block_processed(11, 2, 0), Ok(LogLevel::Info));
    assert_eq!(monitor.block_processed(12, 0, 1), Ok(LogLevel::Info));
    assert_eq!(monitor.next_block, 13);

    assert_eq!(
        monitor.block_processed(15, 1, 1),
        Err(Error::InvalidArgument(
            "block_num".to_string(),
            "Expected block 13, got block 15".to_string()
        ))
    );
    assert_eq!(monitor.next_block, 13);
    assert_eq!(monitor.first_block, 3);
}

#[test]
fn client_uris_name_their_node() {
    assert_eq!(test_client_uri(0), "mc://node0.test.com/");
    assert_eq!(test_client_uri(17), "mc://node17.test.com/");
    assert_eq!(test_client_uri(u32::MAX), "mc://node4294967295.test.com/");
}

#[test]
fn s3_uris_name_bucket_path_and_region() {
    let uri = Uri::from_str("s3://bucket/some/dir/?region=eu-central-1").unwrap();
    assert_eq!(uri.url, "s3://bucket/some/dir/?region=eu-central-1");
    assert_eq!(
        uri.destination,
        Destination::S3 {
            path: "bucket/some/dir".to_string(),
            region: Some("eu-central-1".to_string())
        }
    );

    let uri = Uri::from_str("s3://bucket/dir").unwrap();
    assert_eq!(
        uri.destination,
        Destination::S3 { path: "bucket/dir".to_string(), region: None }
    );

    // An empty region counts as none, and the first region that is given counts.
    let uri = Uri::from_str("s3://bucket/dir?region=&x=1&region=a&region=b").unwrap();
    assert_eq!(
        uri.destination,
        Destination::S3 { path: "bucket/dir".to_string(), region: Some("a".to_string()) }
    );
}

#[test]
fn file_uris_name_a_local_path() {
    let uri = Uri::from_str("file:///var/ledger/").unwrap();
    assert_eq!(uri.destination, Destination::Local { path: "/var/ledger".to_string() });
}

#[test]
fn uris_without_destination_are_errors() {
    assert!(matches!(Uri::from_str("not a url"), Err(UriParseError::UrlParse(_))));
    assert!(matches!(Uri::from_str(""), Err(UriParseError::UrlParse(_))));
    match Uri::from_str("http://example.com/x") {
        Err(UriParseError::UnknownScheme(scheme)) => assert_eq!(scheme, "http"),
        _ => panic!("unexpected result"),
    }
    assert!(matches!(Uri::from_str("file:///"), Err(UriParseError::MissingPath)));
}

#[test]
fn destinations_follow_from_the_parts_of_a_url() {
    let region = QueryPair { key: "region".to_string(), value: "us-west-2".to_string() };
    let other = QueryPair { key: "Region".to_string(), value: "x".to_string() };
    let empty = QueryPair { key: "region".to_string(), value: String::new() };

    let named = destination_for("s3", "//bucket//", &vec![other.clone(), empty, region]).unwrap();
    assert_eq!(
        named,
        Destination::S3 { path: "bucket".to_string(), region: Some("us-west-2".to_string()) }
    );
    assert!(matches!(destination_for("s3", "///", &vec![]), Err(UriParseError::MissingPath)));
    assert!(matches!(destination_for("s3", "", &vec![]), Err(UriParseError::MissingPath)));

    let named = destination_for("file", "/a/b//", &vec![other]).unwrap();
    assert_eq!(named, Destination::Local { path: "/a/b".to_string() });
    assert!(matches!(destination_for("file", "//", &vec![]), Err(UriParseError::MissingPath)));

    match destination_for("S3", "bucket", &vec![]) {
        Err(UriParseError::UnknownScheme(scheme)) => assert_eq!(scheme, "S3"),
        _ => panic!("unexpected result"),
    }
}

#[test]
fn sixteen_bit_values_are_written_low_byte_first() {
    let value: u16 = 0x1234;
    assert_eq!(value.intel_size(), INTEL_U16_SIZE);
    assert_eq!(INTEL_U32_SIZE, 4);
    assert_eq!(value.to_x64_vec(), vec![0x34, 0x12]);

    let mut dest = [0xeeu8; 4];
    assert_eq!(value.to_x64_bytes(&mut dest), Ok(2));
    assert_eq!(dest, [0x34, 0x12, 0xee, 0xee]);

    let mut short = [0xeeu8; 1];
    assert_eq!(value.to_x64_bytes(&mut short), Err(2));
    assert_eq!(short, [0xee]);
}

fn signature(tag: u8) -> txbuilder::mint::Ed25519Signature {
    let mut bytes = [0u8; 64];
    bytes[0] = tag / 16;
    bytes[63] = tag;
    txbuilder::mint::Ed25519Signature { bytes }
}

#[test]
fn signatures_are_merged_once_and_in_order() {
    let sets = vec![
        vec![signature(30), signature(10)],
        vec![],
        vec![signature(20), signature(30), signature(200)],
        vec![signature(10)],
    ];
    let merged = txbuilder::mint::merge_signatures(&sets);
    assert_eq!(merged, vec![signature(10), signature(20), signature(30), signature(200)]);

    let mut expected: Vec<txbuilder::mint::Ed25519Signature> =
        sets.iter().flat_map(|s| s.iter()).cloned().collect();
    expected.sort();
    expected.dedup();
    assert_eq!(merged, expected);

    assert!(txbuilder::mint::merge_signatures(&vec![]).is_empty());
    assert!(txbuilder::mint::merge_signatures(&vec![vec![], vec![]]).is_empty());
}

#[test]
fn numbers_read_as_they_were_written() {
    let value: u32 = 0x89ab_cdef;
    assert_eq!(value.intel_size(), INTEL_U32_SIZE);
    assert_eq!(value.to_x64_vec(), vec![0xef, 0xcd, 0xab, 0x89]);
    assert_eq!(u32::from_x64_bytes(&[0xef, 0xcd, 0xab, 0x89]), Ok(value));
    assert_eq!(u32::from_x64_bytes(&[0xef, 0xcd, 0xab, 0x89, 0x77]), Ok(value));
    assert_eq!(u32::from_x64_bytes(&[0xef, 0xcd, 0xab]), Err(4));
    assert_eq!(u32::from_x64_bytes(&u32::MAX.to_x64_vec()), Ok(u32::MAX));
    assert_eq!(u32::from_x64_bytes(&0u32.to_x64_vec()), Ok(0));

    assert_eq!(u16::from_x64_bytes(&[0x34, 0x12]), Ok(0x1234));
    assert_eq!(u16::from_x64_bytes(&[0x34]), Err(2));
    assert_eq!(u16::from_x64_bytes(&u16::MAX.to_x64_vec()), Ok(u16::MAX));

    let mut dest = [0u8; 3];
    assert_eq!(value.to_x64_bytes(&mut dest), Err(4));
    assert_eq!(dest, [0; 3]);
}
