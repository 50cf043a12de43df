use glomeris::platform::macos::launchd::{
    extract_program_path, extract_start_interval_secs, generate_plist, plan_install,
    InstallOutcome, InstallPlan, LABEL,
};
use glomeris::platform::macos::notify::{applescript_string_literal, notification_script};

#[test]
fn generate_plist_contains_label_and_program_path() {
    let xml = generate_plist("/usr/local/bin/glomeris", 42, "/tmp/glomeris-logs-test");
    assert!(xml.contains(LABEL));
    assert!(xml.contains("/usr/local/bin/glomeris"));
    assert!(xml.contains("<integer>42</integer>"));
    assert!(xml.starts_with("<?xml"));
}

#[test]
fn generate_plist_uses_log_dir_parameter_not_tmp() {
    let xml = generate_plist("/usr/local/bin/glomeris", 42, "/Users/example/Library/Logs/Glomeris");
    assert!(xml.contains("/Users/example/Library/Logs/Glomeris/monitor.log"));
    assert!(xml.contains("/Users/example/Library/Logs/Glomeris/monitor.err.log"));
    assert!(!xml.contains("/tmp/glomeris-monitor"));
}

#[test]
fn generate_plist_escapes_xml_special_characters_in_path() {
    let xml = generate_plist("/tmp/a&b<c>\"d", 1, "/tmp/glomeris-logs-test");
    assert!(!xml.contains("a&b<c>\"d"));
    assert!(xml.contains("a&amp;b&lt;c&gt;&quot;d"));
}

#[test]
fn generate_plist_matches_the_documented_layout() {
    let xml = generate_plist("/bin/echo", 60, "/logs/");
    let expected = "<?xml version=\"1.0\" encoding=\"UTF-8\"?>
<!DOCTYPE plist PUBLIC \"-//Apple//DTD PLIST 1.0//EN\" \"http://www.apple.com/DTDs/PropertyList-1.0.dtd\">
<plist version=\"1.0\">
<dict>
    <key>Label</key>
    <string>com.glomeris.monitor</string>
    <key>ProgramArguments</key>
    <array>
        <string>/bin/echo</string>
        <string>daemon</string>
        <string>run</string>
    </array>
    <key>StartInterval</key>
    <integer>60</integer>
    <key>RunAtLoad</key>
    <true/>
    <key>StandardOutPath</key>
    <string>/logs/monitor.log</string>
    <key>StandardErrorPath</key>
    <string>/logs/monitor.err.log</string>
</dict>
</plist>
";
    assert_eq!(xml, expected);
}

#[test]
fn extract_start_interval_secs_refuses_ambiguous_duplicate_marker() {
    let xml = "<plist><dict>\
        <key>ProgramArguments</key><array><string>decoy \
        <key>StartInterval</key><integer>999</integer></string></array>\
        <key>StartInterval</key><integer>60</integer>\
        </dict></plist>";
    assert_eq!(extract_start_interval_secs(xml), None);
}

#[test]
fn extract_program_path_refuses_ambiguous_duplicate_marker() {
    let xml = "<plist><dict>\
        <key>Comment</key><string>decoy \
        <key>ProgramArguments</key><array><string>/decoy/path</string></array></string>\
        <key>ProgramArguments</key><array><string>/real/path</string></array>\
        </dict></plist>";
    assert_eq!(extract_program_path(xml), None);
}

#[test]
fn generated_plists_read_back_their_interval_and_program() {
    let xml = generate_plist("/opt/glomeris", 300, "/logs");
    assert_eq!(extract_start_interval_secs(&xml), Some(300));
    assert_eq!(extract_program_path(&xml).as_deref(), Some("/opt/glomeris"));
    assert_eq!(extract_start_interval_secs("<key>StartInterval</key><integer> +42 </integer>"), Some(42));
    assert_eq!(extract_start_interval_secs("<key>StartInterval</key><integer>-1</integer>"), None);
}

#[test]
fn install_plan_follows_the_existing_plist() {
    let fresh = generate_plist("/bin/new", 60, "/logs");
    assert_eq!(plan_install(None, "/bin/new", false, "/logs"), InstallPlan::WriteFresh(fresh.clone()));
    assert_eq!(plan_install(Some(&fresh), "/bin/new", false, "/logs"), InstallPlan::UpToDate);
    let hand_tuned = generate_plist("/bin/old", 900, "/logs");
    assert_eq!(
        plan_install(Some(&hand_tuned), "/bin/new", false, "/logs"),
        InstallPlan::Repair(generate_plist("/bin/new", 900, "/logs"))
    );
    let customised = hand_tuned.replace("<true/>", "<false/>");
    assert_eq!(plan_install(Some(&customised), "/bin/new", false, "/logs"), InstallPlan::NeedsForce);
    assert_eq!(
        plan_install(Some(&customised), "/bin/new", true, "/logs"),
        InstallPlan::Repair(generate_plist("/bin/new", 900, "/logs"))
    );
}

#[test]
fn applescript_string_literal_escapes_quotes_and_backslashes() {
    assert_eq!(applescript_string_literal("hello"), "\"hello\"");
    assert_eq!(applescript_string_literal("say \"hi\""), "\"say \\\"hi\\\"\"");
    assert_eq!(applescript_string_literal("a\\b"), "\"a\\\\b\"");
}

#[test]
fn applescript_string_literal_never_breaks_out_of_quotes() {
    let input = "\" ; do shell script \"rm -rf /\" ; \"";
    let literal = applescript_string_literal(input);
    assert!(literal.starts_with('"') && literal.ends_with('"'));
    let middle = &literal[1..literal.len() - 1];
    assert!(!middle.contains("\"\""), "no unescaped adjacent quotes");
}

#[test]
fn notification_script_quotes_both_strings() {
    assert_eq!(
        notification_script("T", "B \"x\""),
        "display notification \"B \\\"x\\\"\" with title \"T\""
    );
}

#[test]
fn only_own_plists_are_loaded_after_install() {
    assert!(InstallOutcome::Installed.loads_agent());
    assert!(InstallOutcome::AlreadyUpToDate.loads_agent());
    assert!(InstallOutcome::Repaired.loads_agent());
    assert!(!InstallOutcome::RefusedNeedsForce.loads_agent());
    assert!(!InstallOutcome::AbortedConcurrentModification.loads_agent());
}

#[test]
fn interval_reads_back_even_with_a_marker_in_the_paths() {
    let xml = generate_plist(
        "/opt/<key>StartInterval</key><integer>7</integer>/glomeris",
        300,
        "/logs/<integer>9</integer>",
    );
    assert_eq!(extract_start_interval_secs(&xml), Some(300));
    assert_eq!(extract_start_interval_secs(&generate_plist("/bin/g", 0, "")), Some(0));
    assert_eq!(
        extract_start_interval_secs(&generate_plist("/bin/g", u64::MAX, "/l")),
        Some(u64::MAX)
    );
}
