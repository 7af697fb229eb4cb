use fruitbasket::{default_plist, forbidden_plist, is_forbidden, Trampoline};

fn count_lines_assigning(text: &str, key: &str) -> usize {
    let prefix = format!("  {} = ", key);
    text.lines().filter(|l| l.starts_with(&prefix)).count()
}

#[test]
fn default_document_is_exact() {
    let t = Trampoline::new("Fruit", "fruit_exe", "com.example.fruit");
    let expected = [
        "{",
        "  CFBundleName = \"Fruit\";",
        "  CFBundleDisplayName = \"Fruit\";",
        "  CFBundleIdentifier = \"com.example.fruit\";",
        "  CFBundleExecutable = \"fruit_exe\";",
        "  CFBundleIconFile = \"\";",
        "  CFBundleVersion = \"1.0.0\";",
        "  NSPrincipalClass = \"NSApplication\";",
        "  NSHighResolutionCapable = True;",
        "  CFBundleInfoDictionaryVersion = 6.0;",
        "  CFBundlePackageType = APPL;",
        "  CFBundleSignature = xxxx;",
        "  LSMinimumSystemVersion = 10.10.0;",
        "}",
        "",
    ]
    .join("\n");
    assert_eq!(t.info_plist(), expected);
}

#[test]
fn without_retina_the_hidpi_pair_is_absent() {
    let mut t = Trampoline::new("Fruit", "fruit", "com.example.fruit");
    t.retina(false).icon("fruit.icns").version("2.3.4");
    let text = t.info_plist();
    assert!(!text.contains("NSPrincipalClass"));
    assert!(!text.contains("NSHighResolutionCapable"));
    assert!(text.contains("  CFBundleIconFile = \"fruit.icns\";\n"));
    assert!(text.contains("  CFBundleVersion = \"2.3.4\";\n"));
}

#[test]
fn reserved_keys_are_never_overridden() {
    let mut t = Trampoline::new("Fruit", "fruit", "com.example.fruit");
    t.plist_key("CFBundleName", "\"Other\"");
    t.plist_keys(&vec![
        ("CFBundleDisplayName", "\"Other\""),
        ("CFBundleIdentifier", "\"org.other\""),
        ("CFBundleExecutable", "\"other\""),
        ("CFBundleIconFile", "\"other.icns\""),
        ("CFBundleVersion", "\"9.9\""),
    ]);
    let text = t.info_plist();
    for key in forbidden_plist() {
        assert_eq!(count_lines_assigning(&text, &key), 1, "key {}", key);
    }
    assert!(!text.contains("Other"));
    assert!(!text.contains("org.other"));
    assert!(text.contains("  CFBundleName = \"Fruit\";\n"));
    assert!(text.contains("  CFBundleVersion = \"1.0.0\";\n"));
}

#[test]
fn override_replaces_default_entry() {
    let mut t = Trampoline::new("Fruit", "fruit", "com.example.fruit");
    t.plist_key("LSMinimumSystemVersion", "10.13.0");
    t.plist_key("CFBundleSignature", "FRUT");
    let text = t.info_plist();
    assert_eq!(count_lines_assigning(&text, "LSMinimumSystemVersion"), 1);
    assert!(text.contains("  LSMinimumSystemVersion = 10.13.0;\n"));
    assert!(!text.contains("10.10.0"));
    assert_eq!(count_lines_assigning(&text, "CFBundleSignature"), 1);
    assert!(text.contains("  CFBundleSignature = FRUT;\n"));
    assert_eq!(count_lines_assigning(&text, "CFBundlePackageType"), 1);
}

#[test]
fn user_entries_follow_hidpi_and_precede_defaults() {
    let mut t = Trampoline::new("Fruit", "fruit", "com.example.fruit");
    t.plist_key("LSUIElement", "1");
    let entries = t.plist_entries();
    let keys: Vec<&str> = entries.iter().map(|e| e.0.as_str()).collect();
    assert_eq!(
        keys,
        vec![
            "CFBundleName",
            "CFBundleDisplayName",
            "CFBundleIdentifier",
            "CFBundleExecutable",
            "CFBundleIconFile",
            "CFBundleVersion",
            "NSPrincipalClass",
            "NSHighResolutionCapable",
            "LSUIElement",
            "CFBundleInfoDictionaryVersion",
            "CFBundlePackageType",
            "CFBundleSignature",
            "LSMinimumSystemVersion",
        ]
    );
    assert_eq!(entries[8].1, "1");
}

#[test]
fn raw_fragments_come_last_verbatim() {
    let mut t = Trampoline::new("Fruit", "fruit", "com.example.fruit");
    t.retina(false);
    t.plist_raw_string("CFBundleURLTypes = ( { CFBundleURLName = \"x\"; } );".to_string());
    t.plist_raw_string("NSAppTransportSecurity = {};".to_string());
    let text = t.info_plist();
    let tail = [
        "  LSMinimumSystemVersion = 10.10.0;",
        "CFBundleURLTypes = ( { CFBundleURLName = \"x\"; } );",
        "NSAppTransportSecurity = {};",
        "}",
        "",
    ]
    .join("\n");
    assert!(text.ends_with(&tail));
}

#[test]
fn key_tables() {
    assert_eq!(forbidden_plist().len(), 6);
    assert!(is_forbidden(&"CFBundleIdentifier".to_string()));
    assert!(!is_forbidden(&"CFBundlePackageType".to_string()));
    let defaults = default_plist();
    assert_eq!(defaults.len(), 4);
    assert_eq!(defaults[0], ("CFBundleInfoDictionaryVersion".to_string(), "6.0".to_string()));
    assert_eq!(defaults[3], ("LSMinimumSystemVersion".to_string(), "10.10.0".to_string()));
}
