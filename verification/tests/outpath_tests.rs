use ansi_senor::outpath::dashify;
use ansi_senor::outpath::join_spaces;
use ansi_senor::outpath::resolve_output_path;
use ansi_senor::outpath::to_hex;

#[test]
fn hex_rendering_is_two_digits_per_byte() {
    assert_eq!(to_hex(&vec![]), "");
    assert_eq!(to_hex(&vec![0x00, 0xab, 0xff, 0x09]), "00abff09");
}

#[test]
fn spaces_become_dashes() {
    assert_eq!(dashify("echo hi there"), "echo-hi-there");
    assert_eq!(dashify("no_spaces"), "no_spaces");
    assert_eq!(dashify("  "), "--");
    assert_eq!(dashify(""), "");
}

#[test]
fn command_parts_join_with_spaces() {
    assert_eq!(join_spaces(&vec!["echo".to_string(), "hi".to_string()]), "echo hi");
    assert_eq!(join_spaces(&vec!["ls".to_string()]), "ls");
    assert_eq!(join_spaces(&vec![]), "");
}

#[test]
fn explicit_path_is_taken_verbatim() {
    let command = vec!["echo".to_string(), "hi".to_string()];
    let a = resolve_output_path(&command, "one output\n", Some("/srv/report.html".to_string()), "/tmp");
    let b = resolve_output_path(&command, "another output\n", Some("/srv/report.html".to_string()), "/tmp");
    assert_eq!(a, "/srv/report.html");
    assert_eq!(b, "/srv/report.html");
}

#[test]
fn derived_path_uses_first_eight_digest_chars() {
    let command = vec!["echo".to_string(), "hi there".to_string()];
    let text = "hello\n";
    let path = resolve_output_path(&command, text, None, "/tmp");
    let digest = format!("{:x}", md5::compute(text.as_bytes()));
    let expected = format!("/tmp/ansi-senor/echo-hi-there-{}.html", &digest[..8]);
    assert_eq!(path, expected);
}

#[test]
fn derived_path_is_reproducible() {
    let command = vec!["ls".to_string(), "-la".to_string()];
    let first = resolve_output_path(&command, "same output\n", None, "/tmp");
    let second = resolve_output_path(&command, "same output\n", None, "/tmp");
    assert_eq!(first, second);
}

#[test]
fn derived_path_changes_with_the_output() {
    let command = vec!["ls".to_string()];
    let first = resolve_output_path(&command, "output a\n", None, "/tmp");
    let second = resolve_output_path(&command, "output b\n", None, "/tmp");
    assert_ne!(first, second);
}
