use bootkit::errors::DErrorType;
use bootkit::grub2::{GrubBootEntries, GrubBootEntry, MenuLine, MenuParser};

const MENU: &str = "\
### BEGIN /etc/grub.d/10_linux ###
menuentry 'openSUSE Tumbleweed'  --class opensuse --class gnu-linux --class gnu --class os $menuentry_id_option 'gnulinux-simple-1234' {
	load_video
	set gfxpayload=keep
	echo	'Loading Linux 6.9.1-1-default ...'
}
submenu 'Advanced options for openSUSE Tumbleweed' --hotkey=1 $menuentry_id_option 'gnulinux-advanced-1234' {
	menuentry 'openSUSE Tumbleweed, with Linux 6.9.1-1-default' --hotkey=2 --class opensuse {
		load_video
	}
	menuentry 'openSUSE Tumbleweed, with Linux 6.9.1-1-default (recovery mode)' --hotkey=3 {
		load_video
	}
}
### END /etc/grub.d/10_linux ###
";

fn catalog(menu: &str, env: &str) -> GrubBootEntries {
    match GrubBootEntries::new(menu, env) {
        Ok(catalog) => catalog,
        Err(err) => panic!("{}", err.error().as_string()),
    }
}

fn catalog_error(menu: &str, env: &str) -> String {
    match GrubBootEntries::new(menu, env) {
        Ok(_) => panic!("the catalog was built"),
        Err(err) => err.error().as_string(),
    }
}

fn paths(menu: &str) -> Vec<String> {
    GrubBootEntry::parse_entries(menu)
        .unwrap()
        .iter()
        .map(|entry| entry.full_path())
        .collect()
}

#[test]
fn entries_nest_in_submenus() {
    let entries = GrubBootEntry::parse_entries(MENU).unwrap();
    assert_eq!(entries.len(), 3);
    assert_eq!(entries[0].entry(), "openSUSE Tumbleweed");
    assert_eq!(entries[0].full_path(), "openSUSE Tumbleweed");
    assert_eq!(entries[1].entry(), "openSUSE Tumbleweed, with Linux 6.9.1-1-default");
    assert_eq!(
        entries[1].full_path(),
        "Advanced options for openSUSE Tumbleweed>openSUSE Tumbleweed, with Linux 6.9.1-1-default"
    );
    assert_eq!(
        entries[2].entry(),
        "openSUSE Tumbleweed, with Linux 6.9.1-1-default (recovery mode)"
    );
    assert_eq!(
        entries[2].full_path(),
        "Advanced options for openSUSE Tumbleweed>openSUSE Tumbleweed, with Linux 6.9.1-1-default (recovery mode)"
    );
}

#[test]
fn closing_a_submenu_returns_to_the_level_above() {
    let menu = "\
submenu 'Outer' {
submenu 'Inner' {
menuentry 'deep' {
}
}
menuentry 'middle' {
}
}
menuentry 'top' {
}
";
    assert_eq!(paths(menu), vec!["Outer>Inner>deep", "Outer>middle", "top"]);
}

#[test]
fn a_brace_closes_the_entry_before_the_submenu() {
    // the first brace closes the entry, so the submenu stays open
    let menu = "submenu 'S' {\nmenuentry 'a' {\n}\nmenuentry 'b' {\n}\n}\nmenuentry 'c' {\n}";
    assert_eq!(paths(menu), vec!["S>a", "S>b", "c"]);
    // without an open entry a brace closes the submenu
    let menu = "submenu 'S' {\n}\nmenuentry 'a' {\n}";
    assert_eq!(paths(menu), vec!["a"]);
    // a brace with nothing open is ignored
    let menu = "}\n}\nmenuentry 'a' {\n}";
    assert_eq!(paths(menu), vec!["a"]);
}

#[test]
fn only_a_lone_brace_closes() {
    // a brace followed by more text closes nothing
    let menu = "submenu 'S' {\n} # not alone\n}}\nmenuentry 'a' {\n}";
    assert_eq!(paths(menu), vec!["S>a"]);
    // white space around the brace does not count
    let menu = "submenu 'S' {\n  \t}  \r\nmenuentry 'a' {\n}";
    assert_eq!(paths(menu), vec!["a"]);
}

#[test]
fn lines_without_a_name_declare_nothing() {
    let menu = "\
menuentry \"double quoted\" {
}
menuentry
}
submenu no quotes {
menuentry 'kept' {
}
menuentry '' {
}
";
    assert_eq!(paths(menu), vec!["kept"]);
}

#[test]
fn an_entry_without_a_name_still_opens_its_block() {
    // the brace closes the block of the nameless entry, not the submenu
    let menu = "submenu 'S' {\nmenuentry broken {\n}\nmenuentry 'a' {\n}\n}";
    assert_eq!(paths(menu), vec!["S>a"]);
}

#[test]
fn the_name_is_what_stands_between_the_first_quotes() {
    let entries = GrubBootEntry::parse_entries("  menuentry   'A name' --id 'other' {").unwrap();
    assert_eq!(entries.len(), 1);
    assert_eq!(entries[0].entry(), "A name");
    // the line itself is not the name
    assert_ne!(entries[0].entry(), "menuentry   'A name' --id 'other' {");
    // the keyword must start the line
    assert!(GrubBootEntry::parse_entries("echo menuentry 'x'").unwrap().is_empty());
    assert!(GrubBootEntry::parse_entries("").unwrap().is_empty());
}

#[test]
fn entry_by_parts() {
    let entry = GrubBootEntry::new("e".to_string(), vec!["a".to_string(), "b".to_string()]);
    assert_eq!(entry.entry(), "e");
    assert_eq!(entry.full_path(), "a>b>e");
    assert_eq!(entry.clone().full_path(), "a>b>e");
    let alone = GrubBootEntry::new("e".to_string(), Vec::new());
    assert_eq!(alone.full_path(), "e");
    let one = GrubBootEntry::new("".to_string(), vec!["s".to_string()]);
    assert_eq!(one.full_path(), "s>");
}

#[test]
fn the_parser_line_by_line() {
    let mut parser = MenuParser::new();
    parser.step(MenuLine::Close);
    parser.step(MenuLine::Submenu(Some("S".to_string())));
    parser.step(MenuLine::Submenu(None));
    parser.step(MenuLine::Entry(Some("a".to_string())));
    parser.step(MenuLine::Other);
    parser.step(MenuLine::Close);
    parser.step(MenuLine::Entry(None));
    parser.step(MenuLine::Close);
    parser.step(MenuLine::Entry(Some("b".to_string())));
    parser.step(MenuLine::Close);
    parser.step(MenuLine::Close);
    parser.step(MenuLine::Entry(Some("c".to_string())));
    let entries = parser.finish();
    let paths: Vec<String> = entries.iter().map(|e| e.full_path()).collect();
    assert_eq!(paths, vec!["S>a", "S>b", "c"]);
}

#[test]
fn selection_by_index() {
    let selected = catalog(MENU, "saved_entry=1");
    assert_eq!(
        selected.selected(),
        Some("openSUSE Tumbleweed, with Linux 6.9.1-1-default")
    );
    assert_eq!(selected.entries().len(), 3);
    assert_eq!(catalog(MENU, "saved_entry=0").selected(), Some("openSUSE Tumbleweed"));
    assert_eq!(
        catalog(MENU, "saved_entry=2\n").selected(),
        Some("openSUSE Tumbleweed, with Linux 6.9.1-1-default (recovery mode)")
    );
    // as the standard library reads numbers
    assert_eq!(catalog(MENU, "saved_entry=+0").selected(), Some("openSUSE Tumbleweed"));
    assert_eq!(
        catalog(MENU, "saved_entry= 001 \r\n").selected(),
        Some("openSUSE Tumbleweed, with Linux 6.9.1-1-default")
    );
}

#[test]
fn selection_out_of_range_is_none() {
    let selected = catalog(MENU, "saved_entry=99");
    assert_eq!(selected.selected(), None);
    assert_eq!(selected.entries().len(), 3);
    assert_eq!(catalog(MENU, "saved_entry=3").selected(), None);
    assert_eq!(catalog("", "saved_entry=0").selected(), None);
}

#[test]
fn selection_without_value_is_an_error() {
    assert_eq!(
        catalog_error(MENU, "saved_entry="),
        "Internal Parse: Failed to parse grub config: Malformed grubenv. Expected value after saved_entry"
    );
    assert_eq!(
        catalog_error(MENU, "# GRUB Environment Block\nsaved_entry=  \t\nnext_entry=\n"),
        "Internal Parse: Failed to parse grub config: Malformed grubenv. Expected value after saved_entry"
    );
    let err = GrubBootEntries::new(MENU, "saved_entry=").err().unwrap();
    assert_eq!(err.ctx().as_str(), "reading the saved boot entry");
    assert!(matches!(err.error(), DErrorType::GrubParse(_)));
}

#[test]
fn selection_without_separator_is_an_error() {
    assert_eq!(
        catalog_error(MENU, "saved_entry"),
        "Internal Parse: Failed to parse grub config: Malformed grubenv. Expected '=' after saved_entry"
    );
    assert_eq!(
        catalog_error(MENU, "x=1\nsaved_entry 1\nsaved_entry=1\n"),
        "Internal Parse: Failed to parse grub config: Malformed grubenv. Expected '=' after saved_entry"
    );
}

#[test]
fn selection_by_name() {
    let env = "# GRUB Environment Block\nsaved_entry=openSUSE Tumbleweed\n#####";
    assert_eq!(catalog(MENU, env).selected(), Some("openSUSE Tumbleweed"));
    // the name of the entry counts, not its path
    let env = "saved_entry=openSUSE Tumbleweed, with Linux 6.9.1-1-default";
    assert_eq!(
        catalog(MENU, env).selected(),
        Some("openSUSE Tumbleweed, with Linux 6.9.1-1-default")
    );
    let env = "saved_entry=Advanced options for openSUSE Tumbleweed>openSUSE Tumbleweed, with Linux 6.9.1-1-default";
    assert_eq!(catalog(MENU, env).selected(), None);
    assert_eq!(catalog(MENU, "saved_entry=no such entry").selected(), None);
    // a number too large for the machine is a name
    let menu = "menuentry '99999999999999999999999999' {\n}";
    assert_eq!(
        catalog(menu, "saved_entry=99999999999999999999999999").selected(),
        Some("99999999999999999999999999")
    );
    assert_eq!(catalog("menuentry '-1' {", "saved_entry=-1").selected(), Some("-1"));
}

#[test]
fn no_selection_without_the_saved_entry() {
    assert_eq!(catalog(MENU, "").selected(), None);
    assert_eq!(catalog(MENU, "# GRUB Environment Block\nnext_entry=1\n").selected(), None);
    // the line must start with the variable
    assert_eq!(catalog(MENU, " saved_entry=1").selected(), None);
}

#[test]
fn the_first_line_for_the_saved_entry_counts() {
    assert_eq!(
        catalog(MENU, "saved_entry=0\nsaved_entry=1").selected(),
        Some("openSUSE Tumbleweed")
    );
    // any variable whose name starts like it
    assert_eq!(
        catalog(MENU, "saved_entry_old=2\nsaved_entry=1").selected(),
        Some("openSUSE Tumbleweed, with Linux 6.9.1-1-default (recovery mode)")
    );
}

#[test]
fn names_of_the_catalog() {
    let catalog = catalog(MENU, "saved_entry=0");
    assert_eq!(
        catalog.entry_names(),
        vec![
            "openSUSE Tumbleweed",
            "openSUSE Tumbleweed, with Linux 6.9.1-1-default",
            "openSUSE Tumbleweed, with Linux 6.9.1-1-default (recovery mode)",
        ]
    );
    let listed: Vec<&str> = catalog.entries().iter().map(|e| e.entry()).collect();
    assert_eq!(listed, catalog.entry_names());
    // what is selected is one of the entries
    let selected = catalog.selected().unwrap();
    assert!(catalog.entry_names().contains(&selected));
}

fn plain(names: &[&str]) -> Vec<GrubBootEntry> {
    names
        .iter()
        .map(|name| GrubBootEntry::new(name.to_string(), Vec::new()))
        .collect()
}

#[test]
fn selection_among_given_entries() {
    let selected = GrubBootEntries::with_selection(plain(&["a", "b", "c"]), "saved_entry=1").unwrap_or_else(|e| panic!("{}", e.error().as_string()));
    assert_eq!(selected.selected(), Some("b"));
    assert_eq!(selected.entry_names(), vec!["a", "b", "c"]);
    let by_name = GrubBootEntries::with_selection(plain(&["a", "b", "b"]), "x=1\nsaved_entry= b ")
        .unwrap_or_else(|e| panic!("{}", e.error().as_string()));
    assert_eq!(by_name.selected(), Some("b"));
    // a number is a position even where an entry has it as its name
    let numbered = GrubBootEntries::with_selection(plain(&["1", "0"]), "saved_entry=1")
        .unwrap_or_else(|e| panic!("{}", e.error().as_string()));
    assert_eq!(numbered.selected(), Some("0"));
    let none = GrubBootEntries::with_selection(plain(&["a"]), "saved_entry=1")
        .unwrap_or_else(|e| panic!("{}", e.error().as_string()));
    assert_eq!(none.selected(), None);
    let empty = GrubBootEntries::with_selection(Vec::new(), "")
        .unwrap_or_else(|e| panic!("{}", e.error().as_string()));
    assert_eq!(empty.selected(), None);
    assert!(empty.entries().is_empty());
    let err = GrubBootEntries::with_selection(plain(&["a"]), "saved_entry").err().unwrap();
    assert_eq!(
        err.error().as_string(),
        "Internal Parse: Failed to parse grub config: Malformed grubenv. Expected '=' after saved_entry"
    );
    let err = GrubBootEntries::with_selection(plain(&["a"]), "saved_entry=\t").err().unwrap();
    assert_eq!(
        err.error().as_string(),
        "Internal Parse: Failed to parse grub config: Malformed grubenv. Expected value after saved_entry"
    );
}
