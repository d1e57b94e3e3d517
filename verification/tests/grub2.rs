use bootkit::errors::DErrorType;
use bootkit::grub2::{GrubFile, GrubLine, KeyValue};

fn is_entry(line: &GrubLine, key: &str, value: &str) -> bool {
    match line {
        GrubLine::KeyValue(key_value) => key_value.key == key && key_value.value == value,
        _ => false,
    }
}

fn is_text(line: &GrubLine, raw: &str) -> bool {
    match line {
        GrubLine::String { raw_line } => raw_line == raw,
        _ => false,
    }
}

fn parse_error(text: &str) -> String {
    match GrubFile::new(text) {
        Ok(_) => panic!("the text was read"),
        Err(err) => err.error().as_string(),
    }
}

fn read(text: &str) -> GrubFile {
    GrubFile::new(text).unwrap()
}

const GRUB_SIMPLE: &str = "GRUB_DISTRIBUTOR=\nGRUB_DEFAULT=saved\nGRUB_HIDDEN_TIMEOUT_QUIET=true\nGRUB_TIMEOUT=8\n";

const GRUB_FULL: &str = "# If you change this file, run 'grub2-mkconfig -o /boot/grub2/grub.cfg' afterwards to update
# /boot/grub2/grub.cfg.

# Uncomment to set your own custom distributor. If you leave it unset or empty, the default
# policy is to determine the value from /etc/os-release
GRUB_DISTRIBUTOR=
GRUB_DEFAULT=saved
GRUB_HIDDEN_TIMEOUT=0
GRUB_HIDDEN_TIMEOUT_QUIET=true
GRUB_TIMEOUT=8
GRUB_CMDLINE_LINUX_DEFAULT=\"splash=silent quiet security=apparmor amd_pstate=active mitigations=auto\"
GRUB_CMDLINE_LINUX=\"\"

# Uncomment to automatically save last booted menu entry in GRUB2 environment

# variable `saved_entry'
# GRUB_SAVEDEFAULT=\"true\"
#Uncomment to enable BadRAM filtering, modify to suit your needs

# This works with Linux (no patch required) and with any kernel that obtains
# the memory map information from GRUB (GNU Mach, kernel of FreeBSD ...)
# GRUB_BADRAM=\"0x01234567,0xfefefefe,0x89abcdef,0xefefefef\"
#Uncomment to disable graphical terminal (grub-pc only)

GRUB_TERMINAL=\"gfxterm\"
# The resolution used on graphical terminal
#note that you can use only modes which your graphic card supports via VBE

# you can see them in real GRUB with the command `vbeinfo'
GRUB_GFXMODE=\"auto\"
# Uncomment if you don't want GRUB to pass \"root=UUID=xxx\" parameter to Linux
# GRUB_DISABLE_LINUX_UUID=true
#Uncomment to disable generation of recovery mode menu entries

# GRUB_DISABLE_RECOVERY=\"true\"
#Uncomment to get a beep at grub start

# GRUB_INIT_TUNE=\"480 440 1\"
GRUB_BACKGROUND=
GRUB_THEME=/boot/grub2/themes/openSUSE/theme.txt
SUSE_BTRFS_SNAPSHOT_BOOTING=\"true\"
GRUB_USE_LINUXEFI=\"true\"
GRUB_DISABLE_OS_PROBER=\"false\"
GRUB_ENABLE_CRYPTODISK=\"y\"
GRUB_CMDLINE_XEN_DEFAULT=\"vga=gfx-1024x768x16\"
";

#[test]
fn test_grub2_parsing_no_eol() {
    let file = GrubFile::new("GRUB_DEFAULT=saved").unwrap();
    let lines = file.lines();
    assert_eq!(lines.len(), 1);
    assert!(is_entry(&lines[0], "GRUB_DEFAULT", "saved"));
}

#[test]
fn test_grub2_parsing_with_eol() {
    let file = GrubFile::new("GRUB_DEFAULT=saved\n").unwrap();
    let lines = file.lines();
    assert_eq!(lines.len(), 2);
    assert!(is_entry(&lines[0], "GRUB_DEFAULT", "saved"));
    // make sure the last line is empty (empty trailing line)
    assert!(is_text(&lines[1], ""));
}

#[test]
fn test_grub2_parsing_fail() {
    let err = GrubFile::new("GRUB_DEFAULT").err().unwrap();
    assert_eq!(
        err.error().as_string(),
        "Internal Parse: Failed to parse grub config: Expected '=' on line: 1"
    );
}

#[test]
fn test_grub2_parsing_simple() {
    let file_data = GRUB_SIMPLE.to_string();
    let file = read(&file_data);
    let lines = file.lines();
    assert_eq!(lines.len(), 5);
    assert!(is_entry(&lines[0], "GRUB_DISTRIBUTOR", ""));
    assert!(is_entry(&lines[1], "GRUB_DEFAULT", "saved"));
    assert!(is_entry(&lines[2], "GRUB_HIDDEN_TIMEOUT_QUIET", "true"));
    assert!(is_entry(&lines[3], "GRUB_TIMEOUT", "8"));
    // make sure the last line is empty (empty trailing line)
    assert!(is_text(&lines[4], ""));
    assert_eq!(file.as_string(), file_data);
}

#[test]
fn test_grub2_parsing_full() {
    let file_data = GRUB_FULL.to_string();
    let file = read(&file_data);
    let lines = file.lines();
    assert_eq!(lines.len(), 46);
    assert!(is_text(&lines[0], "# If you change this file, run \'grub2-mkconfig -o /boot/grub2/grub.cfg\' afterwards to update"));
    assert!(is_text(&lines[1], "# /boot/grub2/grub.cfg."));
    assert!(is_text(&lines[2], ""));
    assert!(is_text(&lines[3], "# Uncomment to set your own custom distributor. If you leave it unset or empty, the default"));
    assert!(is_text(&lines[4], "# policy is to determine the value from /etc/os-release"));
    assert!(is_entry(&lines[5], "GRUB_DISTRIBUTOR", ""));
    assert!(is_entry(&lines[6], "GRUB_DEFAULT", "saved"));
    assert!(is_entry(&lines[7], "GRUB_HIDDEN_TIMEOUT", "0"));
    assert!(is_entry(&lines[8], "GRUB_HIDDEN_TIMEOUT_QUIET", "true"));
    assert!(is_entry(&lines[9], "GRUB_TIMEOUT", "8"));
    assert!(is_entry(
        &lines[10],
        "GRUB_CMDLINE_LINUX_DEFAULT",
        "splash=silent quiet security=apparmor amd_pstate=active mitigations=auto"
    ));
    assert!(is_entry(&lines[11], "GRUB_CMDLINE_LINUX", ""));
    assert!(is_text(&lines[12], ""));
    assert!(is_text(
        &lines[13],
        "# Uncomment to automatically save last booted menu entry in GRUB2 environment"
    ));
    assert!(is_text(&lines[14], ""));
    assert!(is_text(&lines[15], "# variable `saved_entry\'"));
    assert!(is_text(&lines[16], "# GRUB_SAVEDEFAULT=\"true\""));
    assert!(is_text(
        &lines[17],
        "#Uncomment to enable BadRAM filtering, modify to suit your needs"
    ));
    assert!(is_text(&lines[18], ""));
    assert!(is_text(
        &lines[19],
        "# This works with Linux (no patch required) and with any kernel that obtains"
    ));
    assert!(is_text(
        &lines[20],
        "# the memory map information from GRUB (GNU Mach, kernel of FreeBSD ...)"
    ));
    assert!(is_text(
        &lines[21],
        "# GRUB_BADRAM=\"0x01234567,0xfefefefe,0x89abcdef,0xefefefef\""
    ));
    assert!(is_text(
        &lines[22],
        "#Uncomment to disable graphical terminal (grub-pc only)"
    ));
    assert!(is_text(&lines[23], ""));
    assert!(is_entry(&lines[24], "GRUB_TERMINAL", "gfxterm"));
    assert!(is_text(&lines[25], "# The resolution used on graphical terminal"));
    assert!(is_text(
        &lines[26],
        "#note that you can use only modes which your graphic card supports via VBE"
    ));
    assert!(is_text(&lines[27], ""));
    assert!(is_text(
        &lines[28],
        "# you can see them in real GRUB with the command `vbeinfo\'"
    ));
    assert!(is_entry(&lines[29], "GRUB_GFXMODE", "auto"));
    assert!(is_text(
        &lines[30],
        "# Uncomment if you don\'t want GRUB to pass \"root=UUID=xxx\" parameter to Linux"
    ));
    assert!(is_text(&lines[31], "# GRUB_DISABLE_LINUX_UUID=true"));
    assert!(is_text(
        &lines[32],
        "#Uncomment to disable generation of recovery mode menu entries"
    ));
    assert!(is_text(&lines[33], ""));
    assert!(is_text(&lines[34], "# GRUB_DISABLE_RECOVERY=\"true\""));
    assert!(is_text(&lines[35], "#Uncomment to get a beep at grub start"));
    assert!(is_text(&lines[36], ""));
    assert!(is_text(&lines[37], "# GRUB_INIT_TUNE=\"480 440 1\""));
    assert!(is_entry(&lines[38], "GRUB_BACKGROUND", ""));
    assert!(is_entry(&lines[39], "GRUB_THEME", "/boot/grub2/themes/openSUSE/theme.txt"));
    assert!(is_entry(&lines[40], "SUSE_BTRFS_SNAPSHOT_BOOTING", "true"));
    assert!(is_entry(&lines[41], "GRUB_USE_LINUXEFI", "true"));
    assert!(is_entry(&lines[42], "GRUB_DISABLE_OS_PROBER", "false"));
    assert!(is_entry(&lines[43], "GRUB_ENABLE_CRYPTODISK", "y"));
    assert!(is_entry(&lines[44], "GRUB_CMDLINE_XEN_DEFAULT", "vga=gfx-1024x768x16"));
    assert!(is_text(&lines[45], ""));

    assert_eq!(file.as_string(), file_data);
}

#[test]
fn round_trip_keeps_every_character() {
    for text in [
        "",
        "\n",
        "\n\n\n",
        "A=1",
        "A=1\n",
        "  A = 'x y'  \n\t# note\n\nB=\"z\"",
        "# only a comment",
        "A='1'\r\nB=2\r\n",
        "K=a=b=c\n   \nK=\"d\"\n",
        GRUB_SIMPLE,
        GRUB_FULL,
    ] {
        assert_eq!(read(text).as_string(), text);
    }
}

#[test]
fn entries_remember_where_they_stood() {
    let file = read("# c\nA=1\n\nB=2");
    let lines = file.lines();
    match (&lines[1], &lines[3]) {
        (GrubLine::KeyValue(a), GrubLine::KeyValue(b)) => {
            assert_eq!(a.line, 1);
            assert_eq!(a.original, "A=1");
            assert!(!a.changed);
            assert_eq!(b.line, 3);
            assert_eq!(b.original, "B=2");
            assert!(!b.changed);
        }
        _ => panic!("lines 1 and 3 are entries"),
    }
}

#[test]
fn key_and_value_are_cut_at_the_first_separator() {
    let file = read("  KEY = 'some \"quoted\" value' \nURL=a=b");
    let lines = file.lines();
    assert!(is_entry(&lines[0], "KEY ", " some quoted value"));
    assert!(is_entry(&lines[1], "URL", "a=b"));
    // nothing before the separator is an empty key
    let file = read("=x");
    assert!(is_entry(&file.lines()[0], "", "x"));
}

#[test]
fn blank_lines_and_comments_are_kept_as_text() {
    let file = read("   \n\t# indented comment\n#=\n\u{a0}");
    let lines = file.lines();
    assert_eq!(lines.len(), 4);
    assert!(is_text(&lines[0], "   "));
    assert!(is_text(&lines[1], "\t# indented comment"));
    assert!(is_text(&lines[2], "#="));
    assert!(is_text(&lines[3], "\u{a0}"));
    assert!(file.keyvalues().is_empty());
}

#[test]
fn missing_separator_names_the_line() {
    assert_eq!(
        parse_error("A=1\n# fine\n\nBROKEN\nALSO BROKEN"),
        "Internal Parse: Failed to parse grub config: Expected '=' on line: 4"
    );
    assert_eq!(
        parse_error("x"),
        "Internal Parse: Failed to parse grub config: Expected '=' on line: 1"
    );
    let mut text = String::new();
    for _ in 0..11 {
        text.push_str("A=1\n");
    }
    text.push_str("no separator");
    assert_eq!(
        parse_error(&text),
        "Internal Parse: Failed to parse grub config: Expected '=' on line: 12"
    );
    let err = GrubFile::new("x").err().unwrap();
    assert_eq!(err.ctx().as_str(), "reading a key/value line");
    assert!(matches!(err.error(), DErrorType::GrubParse(_)));
}

#[test]
fn setting_the_same_value_changes_nothing() {
    let text = "A='1'\n# c\nB=\"two\"\n";
    let mut file = read(text);
    file.set_key_value("A", "1");
    file.set_key_value("B", "two");
    assert_eq!(file.as_string(), text);
    for line in file.lines() {
        if let GrubLine::KeyValue(kv) = line {
            assert!(!kv.changed);
        }
    }
}

#[test]
fn setting_another_value_rewrites_that_line_only() {
    let mut file = read("A='1'\n# c\n  B = two  \nC=3\n");
    file.set_key_value("B ", "2");
    assert_eq!(file.as_string(), "A='1'\n# c\nB =\"2\"\nC=3\n");
    let mut file = read("A='1'\n# c\nB=two\nC=3\n");
    file.set_key_value("B", "2");
    assert_eq!(file.as_string(), "A='1'\n# c\nB=\"2\"\nC=3\n");
    match &file.lines()[2] {
        GrubLine::KeyValue(kv) => {
            assert!(kv.changed);
            assert_eq!(kv.value, "2");
            assert_eq!(kv.original, "B=two");
            assert_eq!(kv.line, 2);
        }
        _ => panic!("line 2 is an entry"),
    }
    // setting it back still writes the normal form
    file.set_key_value("B", "two");
    assert_eq!(file.as_string(), "A='1'\n# c\nB=\"two\"\nC=3\n");
}

#[test]
fn setting_a_new_key_appends_a_line() {
    let mut file = read("A=1\n# c");
    file.set_key_value("NEW", "v w");
    assert_eq!(file.as_string(), "A=1\n# c\nNEW=\"v w\"");
    let lines = file.lines();
    assert_eq!(lines.len(), 3);
    assert!(is_entry(&lines[0], "A", "1"));
    assert!(is_text(&lines[1], "# c"));
    match &lines[2] {
        GrubLine::KeyValue(kv) => {
            assert_eq!(kv.line, 2);
            assert!(kv.changed);
            assert_eq!(kv.original, "");
        }
        _ => panic!("the new line is an entry"),
    }
    // after a final line feed the new entry follows the empty last line
    let mut file = read("A=1\n");
    file.set_key_value("B", "2");
    assert_eq!(file.as_string(), "A=1\n\nB=\"2\"");
    // the new key is found afterwards
    file.set_key_value("B", "3");
    assert_eq!(file.as_string(), "A=1\n\nB=\"3\"");
    assert_eq!(file.lines().len(), 3);
}

#[test]
fn the_last_of_two_entries_for_a_key_wins() {
    let mut file = read("K=first\nX=1\nK=second\n");
    assert_eq!(file.get("K").map(|kv| kv.value.as_str()), Some("second"));
    assert_eq!(file.get("K").map(|kv| kv.line), Some(2));
    assert_eq!(file.get("X").map(|kv| kv.value.as_str()), Some("1"));
    assert!(file.get("Y").is_none());
    let current = file.keyvalues();
    assert_eq!(current.len(), 2);
    assert_eq!((current[0].key.as_str(), current[0].value.as_str()), ("X", "1"));
    assert_eq!((current[1].key.as_str(), current[1].value.as_str()), ("K", "second"));
    // and it is the last one that is rewritten
    file.set_key_value("K", "third");
    assert_eq!(file.as_string(), "K=first\nX=1\nK=\"third\"\n");
    assert_eq!(file.get("K").map(|kv| kv.value.as_str()), Some("third"));
}

#[test]
fn a_document_of_given_lines() {
    let original = read("A=1\n# c\nB=2");
    let mut copy = GrubFile::from_lines(original.lines());
    assert_eq!(copy.as_string(), "A=1\n# c\nB=2");
    assert_eq!(copy.lines().len(), 3);
    assert_eq!(copy.get("B").map(|kv| kv.value.as_str()), Some("2"));
    copy.set_key_value("A", "9");
    assert_eq!(copy.as_string(), "A=\"9\"\n# c\nB=2");
    assert_eq!(original.as_string(), "A=1\n# c\nB=2");

    let lines = vec![
        GrubLine::String { raw_line: "# made by hand".to_string() },
        GrubLine::KeyValue(KeyValue::from_key_val(7, "K", "v")),
    ];
    let mut file = GrubFile::from_lines(&lines);
    assert_eq!(file.as_string(), "# made by hand\nK=\"v\"");
    // the entry is found by where it stands, whatever position it claims
    file.set_key_value("K", "w");
    assert_eq!(file.as_string(), "# made by hand\nK=\"w\"");
    assert_eq!(GrubFile::from_lines(&[]).as_string(), "");
}

#[test]
fn an_entry_by_itself() {
    let kv = KeyValue::new(3, "  NAME='a \"b\" c'  ").unwrap();
    assert_eq!(kv.line, 3);
    assert_eq!(kv.key, "NAME");
    assert_eq!(kv.value, "a b c");
    assert_eq!(kv.original, "  NAME='a \"b\" c'  ");
    assert!(!kv.changed);
    assert_eq!(String::from(&kv), "  NAME='a \"b\" c'  ");

    let err = KeyValue::new(usize::MAX, "nothing here").unwrap_err();
    assert_eq!(
        err.error().as_string(),
        format!(
            "Internal Parse: Failed to parse grub config: Expected '=' on line: {}",
            usize::MAX as u128 + 1
        )
    );
}

#[test]
fn an_entry_is_updated_and_written() {
    let mut kv = KeyValue::new(0, "A='1'").unwrap();
    kv.update("1");
    assert!(!kv.changed);
    assert_eq!(String::from(&kv), "A='1'");
    kv.update("2");
    assert!(kv.changed);
    assert_eq!(kv.value, "2");
    assert_eq!(String::from(&kv), "A=\"2\"");
    let copy = kv.clone();
    assert_eq!(String::from(kv), "A=\"2\"");
    assert_eq!(String::from(GrubLine::KeyValue(copy)), "A=\"2\"");

    let made = KeyValue::from_key_val(5, "K", "");
    assert_eq!(made.line, 5);
    assert!(made.changed);
    assert_eq!(made.original, "");
    assert_eq!(String::from(&made), "K=\"\"");

    let text = GrubLine::String { raw_line: "# c".to_string() };
    assert_eq!(String::from(&text), "# c");
    assert_eq!(String::from(text.clone()), "# c");
}

#[test]
fn an_entry_is_read_again_from_its_line() {
    let mut kv = KeyValue::from_key_val(1, "OLD", "old");
    kv.original = "NEW=new".to_string();
    assert!(kv.parse().is_ok());
    assert_eq!(kv.key, "NEW");
    assert_eq!(kv.value, "new");
    assert!(kv.changed);
    kv.original = "no separator".to_string();
    let err = kv.parse().unwrap_err();
    assert_eq!(
        err.error().as_string(),
        "Internal Parse: Failed to parse grub config: Expected '=' on line: 2"
    );
    assert_eq!(kv.key, "NEW");
    assert_eq!(kv.value, "new");
}
