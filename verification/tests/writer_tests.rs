use bambumate::profile::writer::{compute_md5_checksum_line, strip_md5_checksum};

#[test]
fn checksum_trailer_is_stripped() {
    let content = "{\n  \"a\": 1\n}\n# MD5 checksum 0123456789ABCDEF0123456789ABCDEF\n";
    assert_eq!(strip_md5_checksum(content), "{\n  \"a\": 1\n}");
    assert_eq!(strip_md5_checksum("{\"a\": {\"b\": 2}}"), "{\"a\": {\"b\": 2}}");
    assert_eq!(strip_md5_checksum("no json here"), "no json here");
}

#[test]
fn checksum_line_is_uppercase_md5() {
    // MD5("") = d41d8cd98f00b204e9800998ecf8427e
    assert_eq!(compute_md5_checksum_line(""), "# MD5 checksum D41D8CD98F00B204E9800998ECF8427E\n");
    // MD5("abc") = 900150983cd24fb0d6963f7d28e17f72
    assert_eq!(compute_md5_checksum_line("abc"), "# MD5 checksum 900150983CD24FB0D6963F7D28E17F72\n");
}

#[test]
fn written_configuration_reads_back_without_checksum() {
    let json = "{\n  \"filaments\": [\n    \"My PLA\"\n  ]\n}";
    let written = format!("{}\n{}", json, compute_md5_checksum_line(json));
    assert_eq!(strip_md5_checksum(&written), json);
}
