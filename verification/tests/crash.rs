use dungeon_rs::crash::{crash_dialog_text, crash_report, panic_location, panic_message, CpuInfo, CrashReport};

#[test]
fn panic_texts() {
    assert_eq!(panic_message(Some("boom".to_string())), "boom");
    assert_eq!(panic_message(None), "An unrecoverable error has occurred.");
    assert_eq!(panic_location(None), "Unknown location");
    assert_eq!(panic_location(Some("src/main.rs:1:1".to_string())), "src/main.rs:1:1");
}

#[test]
fn dialog_names_the_crash_file() {
    assert_eq!(
        crash_dialog_text("boom", "/tmp/crash_report.txt"),
        "An unrecoverable error has occurred, the editor will shut down.\nThe error was: boom\n\nA crash file will be generated at /tmp/crash_report.txt"
    );
}

#[test]
fn crash_report_lists_everything() {
    let report = CrashReport {
        os_version: None,
        used_memory: "10".to_string(),
        total_memory: "20".to_string(),
        cpu_count: "1".to_string(),
        cpu_brand: "Brand".to_string(),
        cpus: vec![CpuInfo {
            name: "cpu0".to_string(),
            frequency: "3000".to_string(),
            brand: "Brand".to_string(),
            usage: "12.5".to_string(),
        }],
        message: "boom".to_string(),
        location: "here".to_string(),
        backtrace: "bt".to_string(),
        raw: "raw".to_string(),
    };
    assert_eq!(
        crash_report(&report),
        "--- DungeonRS Crash Report ---\nPlease provide the contents of this file when creating a bug report.\n\n\nOperating System: Unknown\nMemory: 10/20\nCPU: 1 Cores Brand\ncpu0: 3000Hz (Brand) 12.5%\n\n---\nError: boom\nLocation: here\nBacktrace: bt\n---\nRaw: raw\n"
    );
}

#[test]
fn crash_file_starts_with_header_and_names_error_and_location() {
    let report = CrashReport {
        os_version: None,
        used_memory: "1".to_string(),
        total_memory: "2".to_string(),
        cpu_count: "0".to_string(),
        cpu_brand: String::new(),
        cpus: vec![],
        message: panic_message(None),
        location: panic_location(Some("src/main.rs:3:5".to_string())),
        backtrace: String::new(),
        raw: String::new(),
    };
    let text = crash_report(&report);
    assert!(text.starts_with("--- DungeonRS Crash Report ---\n"));
    assert!(text.contains("\nError: An unrecoverable error has occurred.\n"));
    assert!(text.contains("\nLocation: src/main.rs:3:5\n"));
}
