use minio_dashboard::config::EndpointConfig;
use minio_dashboard::config::port_decimal;
use minio_dashboard::errors::ErrorKind;
use minio_dashboard::errors::ExportError;
use minio_dashboard::hexstr::payload_hex;
use minio_dashboard::listing::bucket_records;
use minio_dashboard::listing::object_records;
use minio_dashboard::paths::join_path;
use minio_dashboard::paths::last_sep_index;
use minio_dashboard::paths::parent_dir;

#[test]
fn join_is_exact_concatenation() {
    assert_eq!(join_path("/out", '/', "photos"), "/out/photos");
    assert_eq!(join_path("/out/photos", '/', "img1.jpg"), "/out/photos/img1.jpg");
}

#[test]
fn join_keeps_key_separators() {
    assert_eq!(
        join_path("/out/photos", '/', "a/b/c.txt"),
        "/out/photos/a/b/c.txt"
    );
}

#[test]
fn join_does_not_normalize() {
    assert_eq!(join_path("/out/", '/', "/x"), "/out///x");
    assert_eq!(join_path("", '/', ""), "/");
}

#[test]
fn last_sep_index_finds_last() {
    assert_eq!(last_sep_index("a/b/c.txt", '/'), Some(3));
    assert_eq!(last_sep_index("c.txt", '/'), None);
    assert_eq!(last_sep_index("/", '/'), Some(0));
}

#[test]
fn parent_is_prefix_before_last_separator() {
    assert_eq!(
        parent_dir("/out/photos/sub/img2.jpg", '/'),
        Some("/out/photos/sub".to_string())
    );
    assert_eq!(parent_dir("/out/photos/img1.jpg", '/'), Some("/out/photos".to_string()));
    assert_eq!(parent_dir("img1.jpg", '/'), None);
}

#[test]
fn nested_key_parent_sits_under_bucket_dir() {
    let bucket_dir = join_path("/out", '/', "b");
    let target = join_path(&bucket_dir, '/', "a/b/c.txt");
    assert_eq!(parent_dir(&target, '/'), Some("/out/b/a/b".to_string()));
}

#[test]
fn flat_key_parent_is_bucket_dir() {
    let bucket_dir = join_path("/out", '/', "b");
    let target = join_path(&bucket_dir, '/', "c.txt");
    assert_eq!(parent_dir(&target, '/'), Some("/out/b".to_string()));
}

#[test]
fn payload_hex_is_lowercase_pairs() {
    assert_eq!(payload_hex(&vec![0xFF, 0xD8]), "ffd8");
    assert_eq!(payload_hex(&vec![0x89, 0x50]), "8950");
    assert_eq!(payload_hex(&vec![0x01, 0x02, 0x03, 0x0F, 0x10]), "0102030f10");
}

#[test]
fn payload_hex_of_empty_is_empty() {
    assert_eq!(payload_hex(&Vec::new()), "");
}

#[test]
fn port_renders_in_decimal() {
    assert_eq!(port_decimal(0), "0");
    assert_eq!(port_decimal(9), "9");
    assert_eq!(port_decimal(9000), "9000");
    assert_eq!(port_decimal(65535), "65535");
}

#[test]
fn endpoint_url_is_plain_http_host_port() {
    let c = EndpointConfig::new(
        "localhost".to_string(),
        9000,
        "access".to_string(),
        "secret".to_string(),
    );
    assert_eq!(c.endpoint_url(), "http://localhost:9000");
    assert_eq!(c.port, 9000);
    assert_eq!(c.host, "localhost");
}

#[test]
fn bucket_records_keep_names_and_order() {
    let r = bucket_records(vec!["a".to_string(), "b".to_string()]);
    assert_eq!(r.len(), 2);
    assert_eq!(r[0].bucket_name, "a");
    assert_eq!(r[1].bucket_name, "b");
}

#[test]
fn object_records_keep_keys_and_order() {
    let r = object_records(Some(vec!["k1".to_string(), "sub/k2".to_string()]));
    assert_eq!(r.len(), 2);
    assert_eq!(r[0].object_name, "k1");
    assert_eq!(r[1].object_name, "sub/k2");
}

#[test]
fn missing_contents_section_is_empty_listing() {
    let r = object_records(None);
    assert_eq!(r.len(), 0);
}

#[test]
fn errors_carry_kind_and_message() {
    let e = ExportError::new(ErrorKind::Transport, "connection reset".to_string());
    assert_eq!(e.kind, ErrorKind::Transport);
    assert_eq!(e.message, "connection reset");
    let e = ExportError::new(ErrorKind::Io, "permission denied".to_string());
    assert_eq!(e.kind, ErrorKind::Io);
}
