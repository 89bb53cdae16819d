use kapsaro_core::display::{
    format_path_for_message, needs_placeholder, sanitize_display_field,
    sanitize_display_field_with_limit,
};
use kapsaro_core::error::ErrorKind;
use kapsaro_core::fs::names::{
    check_atomic_write_target_name, check_child_name, check_path_component,
    describe_unreplaceable_child_type, is_hyphenated_uuid_value, is_write_staging_name,
    mismatched_dir_kind, scoped_invalid_operation_error, unique_staging_dir_name,
    unique_write_staging_name, DirectoryScope, ScanBudget,
};
use kapsaro_core::fs::lock::{format_lock_contention, lock_timeout, nested_lock_error, LockBackoff};
use kapsaro_core::fs::permission::ChildType;
use kapsaro_core::path::DisplayBase;
use kapsaro_core::json_limits::validate_json_limits;
use kapsaro_core::warning::{
    push_unique_warning, LocalStateWarning, LocalStateWarningCode, LocalStateWarningSink,
    MAX_LOCAL_STATE_WARNINGS,
};
use kapsaro_core::limits::{resolve_encrypted_artifact_read_limit, validate_wrap_count};
use kapsaro_core::limits::{MAX_JSON_DOCUMENT_READ_SIZE, MAX_KV_ENC_FILE_SIZE, MAX_WRAP_ITEMS};
use kapsaro_core::shell::{
    append_repair_command, format_repair_command, quote_posix_argument, repair_command_for_absolute,
};
use kapsaro_core::text::{contains_text, first_word_of, format_decimal, format_octal4};
use kapsaro_core::timing::{
    format_timestamp_rfc3339, generate_current_timestamp, parse_relative_duration_days, DateTimeFields,
};
use kapsaro_core::validation::{
    validate_github_login, validate_kv_file_basename, validate_member_handle,
};

#[test]
fn member_handle_accepts_the_documented_alphabet() {
    assert!(validate_member_handle("alice@example.com").is_ok());
    assert!(validate_member_handle("a.b_c+d-e").is_ok());
    assert!(validate_member_handle("0bob").is_ok());
}

#[test]
fn member_handle_refusals_are_invalid_arguments() {
    for bad in ["", "-alice", ".alice", "al ice", "alice/x", "ali\u{e9}"] {
        let e = validate_member_handle(bad).unwrap_err();
        assert_eq!(e.kind, ErrorKind::InvalidArgument, "{bad:?}");
    }
    let long = "a".repeat(129);
    assert!(validate_member_handle(&long).is_err());
    let max = "a".repeat(128);
    assert!(validate_member_handle(&max).is_ok());
}

#[test]
fn github_login_rules() {
    assert!(validate_github_login("octo-cat").is_ok());
    assert!(validate_github_login("a").is_ok());
    assert!(validate_github_login("").is_err());
    assert!(validate_github_login("-octo").is_err());
    assert!(validate_github_login("octo-").is_err());
    assert!(validate_github_login("oc--to").is_err());
    assert!(validate_github_login("oc_to").is_err());
    assert!(validate_github_login(&"a".repeat(39)).is_ok());
    assert!(validate_github_login(&"a".repeat(40)).is_err());
}

#[test]
fn kv_basename_rules() {
    assert!(validate_kv_file_basename("prod").is_ok());
    assert!(validate_kv_file_basename("").is_err());
    assert!(validate_kv_file_basename(".hidden").is_err());
    assert!(validate_kv_file_basename("a/b").is_err());
    assert!(validate_kv_file_basename("a\\b").is_err());
    assert!(validate_kv_file_basename("tab\there").is_err());
}

#[test]
fn sanitize_escapes_controls_and_keeps_plain_text() {
    assert_eq!(sanitize_display_field("plain"), "plain");
    assert_eq!(sanitize_display_field("a\nb\tc\rd"), "a\\nb\\tc\\rd");
    assert_eq!(sanitize_display_field("x\u{7}y"), "x?y");
    assert_eq!(sanitize_display_field("left\u{202E}right"), "left?right");
    assert_eq!(sanitize_display_field("zero\u{200B}width"), "zero?width");
}

#[test]
fn sanitize_truncates_within_the_byte_bound_with_the_mark() {
    // Eight bytes at most, the three-byte mark included.
    assert_eq!(sanitize_display_field_with_limit("abcdefghij", 8), "abcde\u{2026}");
    // A limit below the minimum is raised to it.
    assert_eq!(sanitize_display_field_with_limit("abcdefghij", 1), "abcde\u{2026}");
    // Text that fits is never marked.
    assert_eq!(sanitize_display_field_with_limit("abcdefgh", 8), "abcdefgh");
    let long = "x".repeat(500);
    let shown = sanitize_display_field(&long);
    assert!(shown.len() <= 200);
    assert!(shown.ends_with('\u{2026}'));
}

#[test]
fn sanitize_bound_holds_for_multibyte_text() {
    let text = "\u{3042}".repeat(100);
    for limit in 8..40 {
        let shown = sanitize_display_field_with_limit(&text, limit);
        assert!(shown.len() <= limit, "limit {limit}");
    }
}

#[test]
fn path_for_message_escapes_newlines() {
    assert_eq!(format_path_for_message("a\nb"), "a\\nb");
    assert!(needs_placeholder('\u{2028}'));
    assert!(!needs_placeholder('a'));
}

#[test]
fn json_limits_accept_shallow_documents_and_refuse_deep_ones() {
    assert!(validate_json_limits(b"{\"a\":[1,2,{\"b\":\"[[[\"}]}").is_ok());
    let deep_ok = format!("{}{}", "[".repeat(32), "]".repeat(32));
    assert!(validate_json_limits(deep_ok.as_bytes()).is_ok());
    let too_deep = format!("{}{}", "[".repeat(33), "]".repeat(33));
    assert!(validate_json_limits(too_deep.as_bytes()).is_err());
}

#[test]
fn json_limits_ignore_brackets_inside_strings() {
    let inside = format!("\"{}\"", "[".repeat(100));
    assert!(validate_json_limits(inside.as_bytes()).is_ok());
    let escaped = format!("[\"\\\"{}\"]", "[".repeat(100));
    assert!(validate_json_limits(escaped.as_bytes()).is_ok());
}

#[test]
fn json_limits_refuse_too_many_elements() {
    let many = format!("[{}0]", "0,".repeat(13_000));
    assert!(validate_json_limits(many.as_bytes()).is_err());
    let fine = format!("[{}0]", "0,".repeat(100));
    assert!(validate_json_limits(fine.as_bytes()).is_ok());
}

#[test]
fn wrap_count_limit() {
    assert!(validate_wrap_count(MAX_WRAP_ITEMS, "wrap").is_ok());
    assert!(validate_wrap_count(MAX_WRAP_ITEMS + 1, "wrap").is_err());
}

#[test]
fn artifact_read_limit_depends_on_extension() {
    assert_eq!(resolve_encrypted_artifact_read_limit("secrets/db.kvenc"), MAX_KV_ENC_FILE_SIZE);
    assert_eq!(resolve_encrypted_artifact_read_limit("secrets/a.enc"), MAX_JSON_DOCUMENT_READ_SIZE);
}

#[test]
fn relative_durations() {
    assert_eq!(parse_relative_duration_days("7d").unwrap(), 7);
    assert_eq!(parse_relative_duration_days(" 3d ").unwrap(), 3);
    assert_eq!(parse_relative_duration_days("2m").unwrap(), 60);
    assert_eq!(parse_relative_duration_days("1y").unwrap(), 365);
    for bad in ["", "d", "7", "7w", "x7d", "0d", "-1d"] {
        let e = parse_relative_duration_days(bad).unwrap_err();
        assert_eq!(e.kind, ErrorKind::Parse, "{bad:?}");
    }
    assert!(parse_relative_duration_days("9223372036854775807y").is_err());
}

fn fields(year: i32, month: u8, day: u8, hms: (u8, u8, u8), nanosecond: u32, offset: (i8, i8, i8)) -> DateTimeFields {
    DateTimeFields {
        year,
        month,
        day,
        hour: hms.0,
        minute: hms.1,
        second: hms.2,
        nanosecond,
        offset_hours: offset.0,
        offset_minutes: offset.1,
        offset_seconds: offset.2,
    }
}

#[test]
fn timestamp_is_rfc3339_at_second_precision() {
    let epoch = fields(1970, 1, 1, (0, 0, 0), 0, (0, 0, 0));
    assert!(epoch.is_valid());
    assert_eq!(format_timestamp_rfc3339(epoch).unwrap(), "1970-01-01T00:00:00Z");
    let later = fields(2023, 11, 14, (22, 13, 20), 123_456_789, (0, 0, 0));
    assert_eq!(format_timestamp_rfc3339(later).unwrap(), "2023-11-14T22:13:20Z");
    let east = fields(2024, 2, 29, (9, 5, 7), 0, (5, 30, 0));
    assert_eq!(format_timestamp_rfc3339(east).unwrap(), "2024-02-29T09:05:07+05:30");
    let west = fields(999, 12, 31, (23, 59, 59), 0, (-3, -15, 0));
    assert_eq!(format_timestamp_rfc3339(west).unwrap(), "0999-12-31T23:59:59-03:15");
}

#[test]
fn timestamps_rfc3339_cannot_write_are_config_errors() {
    let ancient = fields(-1, 1, 1, (0, 0, 0), 0, (0, 0, 0));
    assert!(ancient.is_valid());
    let e = format_timestamp_rfc3339(ancient).unwrap_err();
    assert_eq!(e.kind, ErrorKind::Config);
    assert!(e.message.starts_with("Failed to format timestamp: "));
    let odd_offset = fields(2024, 1, 1, (0, 0, 0), 0, (1, 0, 30));
    assert_eq!(format_timestamp_rfc3339(odd_offset).unwrap_err().kind, ErrorKind::Config);
    assert!(!fields(2023, 2, 29, (0, 0, 0), 0, (0, 0, 0)).is_valid());
    assert!(!fields(2024, 1, 1, (0, 0, 0), 0, (1, -5, 0)).is_valid());
}

#[test]
fn current_timestamp_is_whole_seconds_utc() {
    let now = generate_current_timestamp().unwrap();
    assert_eq!(now.len(), 20);
    assert!(now.ends_with('Z'));
    assert_eq!(&now[10..11], "T");
}

#[test]
fn posix_quoting() {
    assert_eq!(quote_posix_argument("/tmp/a b").unwrap(), "'/tmp/a b'");
    assert_eq!(quote_posix_argument("it's").unwrap(), "'it'\\''s'");
}

#[test]
fn repair_commands_are_appended_only_when_quotable() {
    assert_eq!(
        format_repair_command("chmod 700", "/home/u/.kapsaro").unwrap(),
        "chmod 700 -- '/home/u/.kapsaro'"
    );
    assert_eq!(
        append_repair_command("Directory is too open.", "chmod 700", "/home/u/.kapsaro"),
        "Directory is too open.; run: chmod 700 -- '/home/u/.kapsaro'"
    );
    assert_eq!(quote_posix_argument("a\u{1b}b"), None);
    let refused = append_repair_command("Too open.", "chmod 700", "/tmp/a\nb");
    assert!(refused.starts_with("Too open.; no repair command is shown"));
}

#[test]
fn text_helpers() {
    assert_eq!(format_decimal(0), "0");
    assert_eq!(format_decimal(1234567), "1234567");
    assert_eq!(format_octal4(0o40755), "0755");
    assert_eq!(format_octal4(0o100600), "0600");
    assert!(contains_text("abc", "bc"));
    assert!(contains_text("abc", ""));
    assert!(!contains_text("abc", "abcd"));
    assert!(!contains_text("abc", "ac"));
    assert_eq!(first_word_of("  ssh-ed25519 AAAA comment").as_deref(), Some("ssh-ed25519"));
    assert_eq!(first_word_of(" \t "), None);
    assert_eq!(first_word_of("word"), Some("word".to_string()));
}

use kapsaro_core::fs::mount::{
    classify_filesystem, classify_filesystem_magic, classify_mount, filesystem_name_from_magic,
    find_mount_filesystem, is_deviceless_filesystem, parse_mountinfo_line, parse_u64_text,
    registered_filesystem_name, StorageLocality,
};
use kapsaro_core::fs::read::{capped_read_length, decode_loaded_text, enforce_loaded_size};

const MOUNTINFO: &str = "22 1 8:1 / / rw,relatime shared:1 - ext4 /dev/sda1 rw\n\
                         30 22 0:25 / /tmp rw shared:2 - tmpfs tmpfs rw\n\
                         41 22 0:40 / /mnt/share rw - nfs4 server:/export rw\n\
                         52 22 0:45 / /mnt/fuse rw - fuse.sshfs host: rw\n";

const FILESYSTEMS: &str = "nodev\tsysfs\nnodev\ttmpfs\nnodev\tnfs4\n\text4\nnodev\tfuse\n";

#[test]
fn mountinfo_lines_name_their_filesystem() {
    assert_eq!(
        parse_mountinfo_line("36 35 98:0 /mnt1 /mnt2 rw,noatime master:1 - ext3 /dev/root rw"),
        Some((36, "ext3".to_string()))
    );
    assert_eq!(parse_mountinfo_line("x 1 - ext4"), None);
    assert_eq!(parse_mountinfo_line("7 1 no separator"), None);
    assert_eq!(parse_mountinfo_line("7 1 -"), None);
    assert_eq!(parse_u64_text("+42"), Some(42));
    assert_eq!(parse_u64_text("18446744073709551615"), Some(u64::MAX));
    assert_eq!(parse_u64_text("18446744073709551616"), None);
    assert_eq!(parse_u64_text("-1"), None);
    assert_eq!(parse_u64_text(""), None);
    assert_eq!(find_mount_filesystem(MOUNTINFO, 41).as_deref(), Some("nfs4"));
    assert_eq!(find_mount_filesystem(MOUNTINFO, 99), None);
    assert_eq!(find_mount_filesystem("garbage\n30 1 - tmpfs x", 30), None);
}

#[test]
fn storage_locality_classification() {
    assert_eq!(registered_filesystem_name("fuse.sshfs"), "fuse");
    assert_eq!(registered_filesystem_name("fuseblk"), "fuseblk");
    assert!(is_deviceless_filesystem(FILESYSTEMS, "tmpfs"));
    assert!(!is_deviceless_filesystem(FILESYSTEMS, "ext4"));
    assert!(is_deviceless_filesystem(FILESYSTEMS, "fuse.sshfs"));
    assert_eq!(classify_filesystem("ext4", false), StorageLocality::Local);
    assert_eq!(classify_filesystem("tmpfs", true), StorageLocality::Local);
    assert_eq!(classify_filesystem("sysfs", true), StorageLocality::Unknown);
    assert_eq!(classify_filesystem("nfs4", true), StorageLocality::Remote);
    assert_eq!(classify_filesystem("gfs2", false), StorageLocality::Remote);
    assert_eq!(classify_filesystem("fuse.sshfs", true), StorageLocality::Remote);
    assert_eq!(classify_mount(22, Some(MOUNTINFO), FILESYSTEMS), StorageLocality::Local);
    assert_eq!(classify_mount(30, Some(MOUNTINFO), FILESYSTEMS), StorageLocality::Local);
    assert_eq!(classify_mount(41, Some(MOUNTINFO), FILESYSTEMS), StorageLocality::Remote);
    assert_eq!(classify_mount(52, Some(MOUNTINFO), FILESYSTEMS), StorageLocality::Remote);
    assert_eq!(classify_mount(22, None, FILESYSTEMS), StorageLocality::Unknown);
    assert_eq!(filesystem_name_from_magic(0xEF53), Some("ext4"));
    assert_eq!(filesystem_name_from_magic(0x1234), None);
    assert_eq!(classify_filesystem_magic(Some(0x6969), FILESYSTEMS), StorageLocality::Remote);
    assert_eq!(classify_filesystem_magic(None, FILESYSTEMS), StorageLocality::Unknown);
}

#[test]
fn bounded_reads() {
    assert_eq!(capped_read_length(10), 11);
    assert_eq!(capped_read_length(usize::MAX), u64::MAX);
    assert_eq!(enforce_loaded_size(vec![1, 2, 3], 3, "Input file", "a.txt").unwrap(), vec![1, 2, 3]);
    let e = enforce_loaded_size(vec![1, 2, 3, 4], 3, "Input file", "a.txt").unwrap_err();
    assert_eq!(e.kind, ErrorKind::Parse);
    assert_eq!(e.message, "Input file exceeds maximum size limit (3 bytes): a.txt");
    assert_eq!(decode_loaded_text(b"hi".to_vec(), "a.txt").unwrap(), "hi");
    let e = decode_loaded_text(vec![0x66, 0xff], "a.txt").unwrap_err();
    assert_eq!(e.message, "Failed to read file a.txt: invalid utf-8 sequence of 1 bytes from index 1");
    let cut = decode_loaded_text(vec![0x66, 0xe2, 0x82], "b.txt").unwrap_err();
    assert_eq!(cut.message, "Failed to read file b.txt: incomplete utf-8 byte sequence from index 1");
}

#[test]
fn child_names_are_single_components() {
    assert!(check_child_name("secrets").is_ok());
    for bad in ["", ".", "..", "a/b", "a\\b", "a\0b"] {
        let e = check_child_name(bad).unwrap_err();
        assert_eq!(e.kind, ErrorKind::InvalidArgument, "{bad:?}");
        assert_eq!(
            e.message,
            format!("invalid relative file name '{bad}': only a single path component is allowed")
        );
    }
    assert!(check_path_component("a\\b").is_ok());
    let e = check_path_component("a/\nb").unwrap_err();
    assert_eq!(
        e.message,
        "invalid relative file name a/\\nb: only a single path component is allowed"
    );
}

#[test]
fn atomic_write_targets_leave_room_for_the_staging_name() {
    assert!(check_atomic_write_target_name(&"a".repeat(213)).is_ok());
    let e = check_atomic_write_target_name(&"a".repeat(214)).unwrap_err();
    assert_eq!(e.message, "file name too long for an atomic write: 214 bytes (max 213)");
    let e = check_atomic_write_target_name(&"\u{e9}".repeat(107)).unwrap_err();
    assert_eq!(e.message, "file name too long for an atomic write: 214 bytes (max 213)");
    assert!(check_atomic_write_target_name("a/b").is_err());
}

#[test]
fn staging_names_are_recognised() {
    let id = "936da01f-9abd-4d9d-80c7-02af85c822a8";
    assert!(is_hyphenated_uuid_value(id));
    assert!(is_hyphenated_uuid_value("936DA01F-9ABD-4D9D-80C7-02AF85C822A8"));
    assert!(!is_hyphenated_uuid_value("936da01f9abd4d9d80c702af85c822a8"));
    assert!(!is_hyphenated_uuid_value("936da01f-9abd-4d9d-80c7-02af85c822ag"));
    assert!(is_write_staging_name(&format!(".tmp-{id}")));
    assert!(is_write_staging_name(&format!(".members.json.tmp.{id}")));
    assert!(is_write_staging_name(&format!(".a.tmp.b.tmp.{id}")));
    assert!(!is_write_staging_name(&format!("..tmp.{id}")));
    assert!(!is_write_staging_name(&format!("x.tmp.{id}")));
    assert!(!is_write_staging_name(&format!(".a.tmp.{id}.tmp.x")));
    assert!(!is_write_staging_name("members.json"));
    assert!(!is_write_staging_name(".tmp."));
    // A target beginning with `tmp-` reads as a staged directory's name.
    assert!(!is_write_staging_name(&format!(".tmp-x.tmp.{id}")));
}

#[test]
fn generated_staging_names_are_recognised_and_fit() {
    let name = unique_write_staging_name("members.json").unwrap();
    assert!(name.starts_with(".members.json.tmp."));
    assert_eq!(name.len(), 1 + 12 + 5 + 36);
    assert!(is_write_staging_name(&name));
    let dir = unique_staging_dir_name().unwrap();
    assert!(dir.starts_with(".tmp-"));
    assert!(is_write_staging_name(&dir));
    assert_ne!(unique_staging_dir_name().unwrap(), dir);
    let longest = unique_write_staging_name(&"a".repeat(213)).unwrap();
    assert_eq!(longest.len(), 255);
}

#[test]
fn entry_types_are_named_in_refusals() {
    assert_eq!(mismatched_dir_kind(ChildType::Directory), None);
    assert_eq!(mismatched_dir_kind(ChildType::Symlink), Some("symlink"));
    assert_eq!(mismatched_dir_kind(ChildType::RegularFile), Some("non-directory"));
    assert_eq!(mismatched_dir_kind(ChildType::Other), Some("non-directory"));
    assert_eq!(describe_unreplaceable_child_type(ChildType::RegularFile), None);
    assert_eq!(describe_unreplaceable_child_type(ChildType::Directory), Some("directory"));
    assert_eq!(describe_unreplaceable_child_type(ChildType::Other), Some("non-regular file"));
    assert!(ScanBudget::Unlimited.allows(usize::MAX));
    assert!(ScanBudget::AtMost(2).allows(1));
    assert!(!ScanBudget::AtMost(2).allows(2));
    let generic = scoped_invalid_operation_error(DirectoryScope::Generic, "no".to_string());
    assert_eq!(generic.kind, ErrorKind::InvalidOperation);
    assert!(generic.recovery.is_none());
    let local = scoped_invalid_operation_error(DirectoryScope::LocalState, "no".to_string());
    assert!(local.recovery.is_some());
}

fn finding(path: &str, reason: &str) -> LocalStateWarning {
    LocalStateWarning::new(LocalStateWarningCode::Permissions, path, reason.to_string())
}

#[test]
fn warning_sink_keeps_each_finding_once_and_counts_what_the_cap_turned_away() {
    let mut sink = LocalStateWarningSink::new();
    sink.record(finding("/home/a", "first"));
    sink.record(finding("/home/a", "first"));
    for i in 0..MAX_LOCAL_STATE_WARNINGS + 3 {
        sink.record(finding(&format!("/home/x{i}"), "later"));
    }
    sink.record(finding(&format!("/home/x{}", MAX_LOCAL_STATE_WARNINGS + 1), "later"));
    let batch = sink.into_batch();
    assert_eq!(batch.warnings.len(), MAX_LOCAL_STATE_WARNINGS);
    assert_eq!(batch.dropped, 4);
    assert_eq!(batch.warnings[0].reason(), "first");
}

#[test]
fn taking_twice_gives_the_first_distinct_warnings_then_nothing() {
    let mut sink = LocalStateWarningSink::new();
    for i in 0..2 * MAX_LOCAL_STATE_WARNINGS + 10 {
        sink.record(finding(&format!("/home/y{i}"), "seen"));
        sink.record(finding("/home/y0", "seen"));
    }
    let first = sink.take();
    assert_eq!(first.warnings.len(), MAX_LOCAL_STATE_WARNINGS);
    assert_eq!(first.warnings[1].path(), "/home/y1");
    assert_eq!(first.dropped, MAX_LOCAL_STATE_WARNINGS);
    let second = sink.take();
    assert!(second.warnings.is_empty());
    assert_eq!(second.dropped, 0);
}

#[test]
fn warnings_compare_paths_by_component() {
    let mut sink = LocalStateWarningSink::new();
    sink.record(finding("/home//a/", "open"));
    sink.record(finding("/home/a", "open"));
    sink.record(finding("/home/./a", "open"));
    let batch = sink.take();
    assert_eq!(batch.warnings.len(), 1);
    assert_eq!(batch.warnings[0].path(), "/home//a/");
}

#[test]
fn warning_reasons_under_a_root_follow_path_components() {
    let mut sink = LocalStateWarningSink::new();
    sink.record(finding("/tmp/t1/home", "inside"));
    sink.record(finding("/tmp/t10/home", "sibling"));
    sink.record(finding("/tmp", "above"));
    sink.record(finding("/tmp/t1", "root itself"));
    let batch = sink.into_batch();
    assert_eq!(batch.into_reasons_under("/tmp/t1"), vec!["inside", "root itself"]);
    let mut sink = LocalStateWarningSink::new();
    sink.record(finding("/a", "one"));
    sink.record(finding("/b", "two"));
    assert_eq!(sink.into_batch().into_reasons(), vec!["one", "two"]);
}

#[test]
fn unique_warnings_keep_their_first_order() {
    let mut list = vec!["a".to_string()];
    push_unique_warning(&mut list, "b".to_string());
    push_unique_warning(&mut list, "a".to_string());
    assert_eq!(list, vec!["a", "b"]);
}

#[test]
fn lock_backoff_doubles_up_to_its_ceiling() {
    let mut backoff = LockBackoff::new();
    let pauses: Vec<u64> = (0..9).map(|_| backoff.next_pause()).collect();
    assert_eq!(pauses, vec![5, 10, 20, 40, 80, 160, 200, 200, 200]);
}

#[test]
fn lock_messages() {
    let base = DisplayBase::from_cwd(Some("/work".to_string()));
    assert_eq!(
        format_lock_contention(&base, "/work/.kapsaro"),
        "Waiting for the lock on .kapsaro to be released"
    );
    let e = nested_lock_error(&base, "/work/a", "/work/b");
    assert_eq!(e.kind, ErrorKind::InvalidOperation);
    assert_eq!(
        e.message,
        "refusing to lock a while b is already locked on this thread: nested directory locks are not allowed"
    );
    let e = lock_timeout(&base, "/elsewhere/x");
    assert_eq!(e.kind, ErrorKind::Io);
    assert_eq!(
        e.message,
        "Gave up waiting for the lock on /elsewhere/x after 30 seconds; run the command again after the other kapsaro writer finishes"
    );
}

#[test]
fn restored_warnings_come_back_as_taken() {
    let mut sink = LocalStateWarningSink::new();
    sink.record(finding("/a", "one"));
    sink.record(finding("/b", "two"));
    let taken = sink.into_batch();
    let mut fresh = LocalStateWarningSink::new();
    fresh.restore_batch(taken);
    let again = fresh.into_batch();
    assert_eq!(again.dropped, 0);
    assert_eq!(again.into_reasons(), vec!["one", "two"]);
}

#[test]
fn repair_command_for_an_absolute_path() {
    assert_eq!(
        repair_command_for_absolute("chmod go-w", "/srv/it's").as_deref(),
        Some("chmod go-w -- '/srv/it'\\''s'")
    );
    assert_eq!(repair_command_for_absolute("chmod go-w", "/srv/a\nb"), None);
    assert_eq!(format_repair_command("chmod go-w", ""), None);
}
