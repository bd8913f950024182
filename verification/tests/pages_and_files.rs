use sysinfo::ProcessStatus;
use tarner_monitor::display::{
    log_level, megabytes, runtime_shown, theme_toggle_label, title, DetailsPane, LogLevel,
};
use tarner_monitor::export::{
    export_fields, export_finished, export_header, export_record, parent_pid_text, ExportRun,
    ExportStep, EXPORT_FILE,
};
use tarner_monitor::logs::{logs_loaded, LogRead};
use tarner_monitor::process::{CpuUsage, DiskUsage, Pid, ProcessInfo};
use tarner_monitor::settings::{load_settings, AppSettings, SettingsRead};
use tarner_monitor::state::{AppTheme, Message, TarnerMonitor};
use tarner_monitor::system::{fact_or_placeholder, SystemManager};
use tarner_monitor::table::{filter_table, name_before, search_key, sort_table, stands_before};
use tarner_monitor::state::SortBy;
use tarner_monitor::text::{chars_of, contains, decimal_text};

fn chars(text: &str) -> Vec<char> {
    text.chars().collect()
}

fn sample() -> ProcessInfo {
    ProcessInfo::new(
        b"bash".to_vec(),
        Some(Pid::from_u32(1)),
        Pid::from_u32(4242),
        CpuUsage::from_bits(13.0f32.to_bits()),
        1_048_576,
        7200,
        ProcessStatus::Run,
        55,
        DiskUsage { total_written_bytes: 9, written_bytes: 8, total_read_bytes: 7, read_bytes: 6 },
    )
}

fn lines(text: &str) -> Vec<String> {
    logs_loaded(LogRead::Contents(text.to_string())).unwrap()
}

#[test]
fn decimal_text_writes_numbers_as_std_does() {
    for n in [0u64, 1, 9, 10, 11, 99, 100, 101, 4242, 1_000_000, u32::MAX as u64, u64::MAX] {
        assert_eq!(decimal_text(n), n.to_string());
    }
}

#[test]
fn chars_of_lists_characters_not_bytes() {
    assert_eq!(chars_of(""), Vec::<char>::new());
    assert_eq!(chars_of("aé€😀"), vec!['a', 'é', '€', '😀']);
}

#[test]
fn contains_finds_contiguous_parts() {
    assert!(contains(&chars("firefox"), &chars("")));
    assert!(contains(&chars(""), &chars("")));
    assert!(!contains(&chars(""), &chars("a")));
    assert!(contains(&chars("firefox"), &chars("fire")));
    assert!(contains(&chars("firefox"), &chars("fox")));
    assert!(contains(&chars("firefox"), &chars("ref")));
    assert!(contains(&chars("firefox"), &chars("firefox")));
    assert!(!contains(&chars("firefox"), &chars("firefoxx")));
    assert!(!contains(&chars("firefox"), &chars("fx")));
    assert!(!contains(&chars("firefox"), &chars("Fire")));
    assert!(contains(&chars("aab"), &chars("ab")));
    for hay in ["", "a", "abcabd", "ääö", "xyzzy"] {
        for needle in ["", "a", "ab", "abd", "zz", "äö", "yzzyx"] {
            assert_eq!(contains(&chars(hay), &chars(needle)), hay.contains(needle));
        }
    }
}

#[test]
fn search_key_is_the_lower_cased_display_name() {
    assert_eq!(search_key(&b"Chrome".to_vec()), chars("chrome"));
    assert_eq!(search_key(&"ÀB".as_bytes().to_vec()), chars("àb"));
    assert_eq!(search_key(&vec![b'A', 0xff]), chars("a\u{fffd}"));
    assert_eq!(search_key(&Vec::new()), chars(""));
}

#[test]
fn name_order_is_lexicographic_on_bytes() {
    let cases: [(&[u8], &[u8]); 8] = [
        (b"", b""),
        (b"", b"a"),
        (b"a", b"ab"),
        (b"ab", b"b"),
        (b"B", b"a"),
        (b"abc", b"abd"),
        (b"\x7f", b"\x80"),
        (b"same", b"same"),
    ];
    for (a, b) in cases {
        assert_eq!(name_before(&a.to_vec(), &b.to_vec()), a < b);
        assert_eq!(name_before(&b.to_vec(), &a.to_vec()), b < a);
    }
}

#[test]
fn table_functions_work_on_a_plain_table() {
    let mut table = vec![sample(), sample(), sample()];
    table[0].name = b"zsh".to_vec();
    table[0].memory_usage = 5;
    table[2].name = b"Bash".to_vec();
    table[2].memory_usage = 7;
    assert!(stands_before(&table[0], &table[1], SortBy::MemAsc));
    assert!(!stands_before(&table[0], &table[1], SortBy::MemDesc));
    assert!(!stands_before(&table[1], &table[1], SortBy::MemAsc));
    assert!(stands_before(&table[2], &table[1], SortBy::AlphaAsc));
    assert!(stands_before(&table[0], &table[1], SortBy::AlphaDesc));
    assert!(!stands_before(&table[0], &table[1], SortBy::CpuAsc));
    sort_table(&mut table, SortBy::MemDesc);
    let memory: Vec<u64> = table.iter().map(|p| p.memory_usage).collect();
    assert_eq!(memory, [1_048_576, 7, 5]);
    let shown = filter_table(&table, "BAS");
    let memory: Vec<u64> = shown.iter().map(|p| p.memory_usage).collect();
    assert_eq!(memory, [1_048_576, 7]);
}

#[test]
fn log_text_is_cut_at_line_feeds() {
    assert_eq!(lines(""), Vec::<String>::new());
    assert_eq!(lines("one"), ["one"]);
    assert_eq!(lines("one\n"), ["one"]);
    assert_eq!(lines("one\ntwo"), ["one", "two"]);
    assert_eq!(lines("one\r\ntwo\r\n"), ["one", "two"]);
    assert_eq!(lines("\n"), [""]);
    assert_eq!(lines("\n\nx"), ["", "", "x"]);
    assert_eq!(lines("a\rb\n"), ["a\rb"]);
    assert_eq!(lines("a\r"), ["a\r"]);
    assert_eq!(lines("a\r\r\nb"), ["a\r", "b"]);
    assert_eq!(
        lines("12:00:00 [INFO] Application started\n12:00:01 [ERROR] x\n"),
        ["12:00:00 [INFO] Application started", "12:00:01 [ERROR] x"]
    );
}

#[test]
fn log_load_failures_carry_their_reason() {
    assert_eq!(logs_loaded(LogRead::NoPath), Err("Log path not found.".to_string()));
    assert_eq!(
        logs_loaded(LogRead::Failed("denied".to_string())),
        Err("Failed to read log file: denied".to_string())
    );
}

#[test]
fn loaded_log_reaches_the_ring() {
    let mut app = TarnerMonitor::new(
        AppTheme::Dark,
        SystemManager::new(None, None, None, None, None, 1, 1),
        Vec::new(),
    );
    app.update(Message::LogsLoaded(logs_loaded(LogRead::Contents("a\nb\n".to_string()))));
    assert_eq!(app.log_lines, ["a", "b"]);
    app.update(Message::LogsLoaded(logs_loaded(LogRead::NoPath)));
    assert_eq!(app.log_lines, ["Log path not found."]);
}

#[test]
fn export_header_is_exact() {
    assert_eq!(
        export_header(),
        [
            "PID",
            "Name",
            "Parent PID",
            "Status",
            "CPU %",
            "Memory %",
            "Memory (bytes)",
            "Disk Read (bytes)",
            "Disk Write (bytes)",
            "Runtime (sec)"
        ]
    );
    assert_eq!(EXPORT_FILE, "tarner_monitor_export.csv");
}

#[test]
fn export_record_of_a_process() {
    let cpu_percent = format!("{:.2}", 13.0f32 / 4.0);
    let memory_percent = format!("{:.2}", (1_048_576f64 / 8_388_608f64) * 100.0);
    let fields = export_record(&sample(), cpu_percent, memory_percent);
    assert_eq!(
        fields,
        [
            "4242",
            "bash",
            "1",
            ProcessStatus::Run.to_string().as_str(),
            "3.25",
            "12.50",
            "1048576",
            "6",
            "8",
            "7200"
        ]
    );
    let mut orphan = sample();
    orphan.parent_pid = None;
    orphan.status = ProcessStatus::Zombie;
    orphan.name = vec![0xc3, 0x28];
    let fields = export_record(&orphan, "0.00".to_string(), "0.00".to_string());
    assert_eq!(fields[1], "\u{fffd}(");
    assert_eq!(fields[2], "N/A");
    assert_eq!(fields[3], ProcessStatus::Zombie.to_string());
    assert_ne!(fields[3], ProcessStatus::Run.to_string());
}

#[test]
fn export_fields_take_the_status_as_given() {
    let fields = export_fields(
        &sample(),
        "Resting".to_string(),
        "1.00".to_string(),
        "2.00".to_string(),
    );
    assert_eq!(
        fields,
        ["4242", "bash", "1", "Resting", "1.00", "2.00", "1048576", "6", "8", "7200"]
    );
}

#[test]
fn parent_is_written_in_decimal_or_as_not_available() {
    assert_eq!(parent_pid_text(None), "N/A");
    assert_eq!(parent_pid_text(Some(Pid::from_u32(0))), "0");
    assert_eq!(parent_pid_text(Some(Pid::from_u32(u32::MAX))), "4294967295");
}

#[test]
fn export_outcomes() {
    assert_eq!(
        export_finished(ExportRun::Written("/home/u/Downloads/tarner_monitor_export.csv".to_string())),
        Ok("Export successful to /home/u/Downloads/tarner_monitor_export.csv".to_string())
    );
    assert_eq!(
        export_finished(ExportRun::NoDownloadDir),
        Err("Could not find download directory.".to_string())
    );
    assert_eq!(
        export_finished(ExportRun::Failed(ExportStep::Create, "denied".to_string())),
        Err("Failed to create file: denied".to_string())
    );
    assert_eq!(
        export_finished(ExportRun::Failed(ExportStep::Header, "e".to_string())),
        Err("Failed to write header: e".to_string())
    );
    assert_eq!(
        export_finished(ExportRun::Failed(ExportStep::Record, "e".to_string())),
        Err("Failed to write record: e".to_string())
    );
    assert_eq!(
        export_finished(ExportRun::Failed(ExportStep::Flush, "e".to_string())),
        Err("Failed to flush CSV: e".to_string())
    );
}

#[test]
fn settings_fall_back_to_the_dark_theme() {
    assert_eq!(AppSettings::default().theme, AppTheme::Dark);
    let light = AppSettings { theme: AppTheme::Light };
    assert_eq!(load_settings(SettingsRead::Parsed(light)), (light, None));
    assert_eq!(load_settings(SettingsRead::Missing), (AppSettings::default(), None));
    assert_eq!(
        load_settings(SettingsRead::Malformed("bad key".to_string())),
        (AppSettings::default(), Some("Error parsing config file: bad key".to_string()))
    );
    assert_eq!(
        load_settings(SettingsRead::Unreadable("denied".to_string())),
        (AppSettings::default(), Some("Error reading config file: denied".to_string()))
    );
}

#[test]
fn host_facts_have_a_placeholder() {
    assert_eq!(fact_or_placeholder(None), "N/A");
    assert_eq!(fact_or_placeholder(Some("Debian".to_string())), "Debian");
    assert_eq!(fact_or_placeholder(Some(String::new())), "");
    let host = SystemManager::new(
        Some("Linux".to_string()),
        None,
        Some("6.1".to_string()),
        None,
        Some("Xeon".to_string()),
        8,
        16,
    );
    assert_eq!(host.os_name, "Linux");
    assert_eq!(host.os_version, "N/A");
    assert_eq!(host.kernel_version, "6.1");
    assert_eq!(host.hostname, "N/A");
    assert_eq!(host.cpu_brand, "Xeon");
    assert_eq!(host.cpu_cores, 8);
    assert_eq!(host.total_memory, 16);
}

#[test]
fn log_level_is_read_off_the_tags() {
    assert_eq!(log_level("12:00 [ERROR] boom"), LogLevel::Error);
    assert_eq!(log_level("12:00 [WARN] hm"), LogLevel::Warn);
    assert_eq!(log_level("[WARN] then [ERROR]"), LogLevel::Error);
    assert_eq!(log_level("12:00 [INFO] fine"), LogLevel::Other);
    assert_eq!(log_level("ERROR without brackets"), LogLevel::Other);
    assert_eq!(log_level("[error]"), LogLevel::Other);
    assert_eq!(log_level(""), LogLevel::Other);
}

#[test]
fn small_page_values() {
    assert_eq!(title(), "TarnerMonitor - Process Manager");
    assert_eq!(theme_toggle_label(AppTheme::Light), "Dark Mode");
    assert_eq!(theme_toggle_label(AppTheme::Dark), "Light Mode");
    assert_eq!(runtime_shown(3600), 10);
    assert_eq!(runtime_shown(359), 0);
    assert_eq!(megabytes(8 * 1024 * 1024 * 1024), 8192);
    assert_eq!(megabytes(1024 * 1024 - 1), 0);
}

#[test]
fn details_pane_follows_selection_and_confirmation() {
    let mut app = TarnerMonitor::new(
        AppTheme::Dark,
        SystemManager::new(None, None, None, None, None, 1, 1),
        vec![sample()],
    );
    assert!(matches!(app.details_pane(), DetailsPane::Empty));
    assert!(!app.is_selected(Pid::from_u32(4242)));
    app.kill_confirm = true;
    assert!(matches!(app.details_pane(), DetailsPane::MissingSelection));
    app.update(Message::ProcessSelected(Pid::from_u32(4242)));
    assert!(app.is_selected(Pid::from_u32(4242)));
    assert!(!app.is_selected(Pid::from_u32(1)));
    let DetailsPane::Details(shown) = app.details_pane() else {
        panic!("no details");
    };
    assert_eq!(shown.pid, Pid::from_u32(4242));
    assert_eq!(shown.run_time, 7200);
    app.update(Message::RequestKill);
    let DetailsPane::Confirmation(name, parent, pid) = app.details_pane() else {
        panic!("no question");
    };
    assert_eq!(name, "bash");
    assert_eq!(parent, "1");
    assert_eq!(pid, Pid::from_u32(4242));
}
