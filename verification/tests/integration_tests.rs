use sysinfo::System;
use tarner_monitor::process::{CpuUsage, DiskUsage, Pid, ProcessInfo};
use tarner_monitor::state::{AppTheme, SortBy, Tab, TarnerMonitor};
use tarner_monitor::system::SystemManager;

fn reading(usage: CpuUsage) -> f32 {
    f32::from_bits(usage.to_bits())
}

fn shown(name: &[u8]) -> String {
    String::from_utf8_lossy(name).to_string()
}

fn facts(system: &System) -> SystemManager {
    SystemManager::new(
        System::name(),
        System::os_version(),
        System::kernel_version(),
        System::host_name(),
        system.cpus().first().map(|cpu| cpu.brand().to_string()),
        system.cpus().len(),
        system.total_memory(),
    )
}

fn take_snapshot(system: &System) -> Vec<ProcessInfo> {
    system
        .processes()
        .iter()
        .map(|(pid, process)| {
            let disk = process.disk_usage();
            ProcessInfo::new(
                process.name().as_encoded_bytes().to_vec(),
                process.parent().map(|parent| Pid::from_u32(parent.as_u32())),
                Pid::from_u32(pid.as_u32()),
                CpuUsage::from_bits(process.cpu_usage().to_bits()),
                process.memory(),
                process.run_time(),
                process.status(),
                process.accumulated_cpu_time(),
                DiskUsage {
                    total_written_bytes: disk.total_written_bytes,
                    written_bytes: disk.written_bytes,
                    total_read_bytes: disk.total_read_bytes,
                    read_bytes: disk.read_bytes,
                },
            )
        })
        .collect()
}

fn start(system: &System) -> TarnerMonitor {
    TarnerMonitor::new(AppTheme::Dark, facts(system), take_snapshot(system))
}

fn refresh(monitor: &mut TarnerMonitor, system: &mut System) {
    system.refresh_all();
    monitor.refresh_processes(take_snapshot(system));
}

// test 1: complete monitoring cycle
#[test]
fn test_complete_monitoring_cycle() {
    println!("Starting complete monitoring cycle test...");
    let mut system = System::new_all();
    let mut monitor = start(&system);
    let initial_count = monitor.processes.len();
    println!("Initial process count: {}", initial_count);
    assert!(initial_count > 0, "No processes detected");
    // system info
    let cpu_cores = monitor.system_manager.cpu_cores;
    let total_memory = monitor.system_manager.total_memory;
    println!("CPU Cores: {}", cpu_cores);
    println!("Total Memory: {} MB", total_memory / 1024 / 1024);
    assert!(cpu_cores > 0);
    assert!(total_memory > 0);
    refresh(&mut monitor, &mut system);
    let after_refresh_count = monitor.processes.len();
    println!("After refresh process count: {}", after_refresh_count);
    let difference = if after_refresh_count > initial_count {
        after_refresh_count - initial_count
    } else {
        initial_count - after_refresh_count
    };
    assert!(
        difference < 50,
        "Process count changed drastically: {} -> {}",
        initial_count,
        after_refresh_count
    );
    println!("Complete monitoring cycle test passed!");
}

// test 2: process search and filter
#[test]
fn test_process_search_and_filter() {
    println!("Testing process search and filter...");
    let mut system = System::new_all();
    let mut monitor = start(&system);
    refresh(&mut monitor, &mut system);
    let total_processes = monitor.processes.len();
    println!("Total processes: {}", total_processes);
    monitor.search_str = String::new();
    let all_filtered = monitor.get_filtered();
    assert_eq!(all_filtered.len(), total_processes);
    println!("Empty search returns all {} processes", all_filtered.len());
    let first_name = monitor.processes.first().map(|first| shown(&first.name));
    if let Some(process_name) = first_name {
        let search_term = process_name.chars().take(3).collect::<String>();
        monitor.search_str = search_term.clone();
        let filtered = monitor.get_filtered();
        println!(
            "Searching for '{}': found {} processes",
            search_term,
            filtered.len()
        );
        assert!(
            filtered.len() > 0,
            "Search should find at least one process"
        );
        for process in filtered {
            let name_lower = shown(&process.name).to_lowercase();
            assert!(
                name_lower.contains(&search_term.to_lowercase()),
                "Process '{}' doesn't contain search term '{}'",
                name_lower,
                search_term
            );
        }
        println!("All filtered processes contain search term");
    }
    println!("Process search and filter test passed!");
}

// test 3: sorting functionality
#[test]
fn test_sorting_functionality() {
    println!("Testing sorting functionality...");
    let mut system = System::new_all();
    let mut monitor = start(&system);
    refresh(&mut monitor, &mut system);
    if monitor.processes.len() < 3 {
        println!("Not enough processes to test sorting");
        return;
    }
    // test CPU sorting
    monitor.current_sort = SortBy::CpuDesc;
    monitor.apply_sort();
    let first_cpu = reading(monitor.processes[0].cpu_usage);
    let last_cpu = reading(monitor.processes[monitor.processes.len() - 1].cpu_usage);
    assert!(
        first_cpu >= last_cpu,
        "CPU sorting failed: first ({}) < last ({})",
        first_cpu,
        last_cpu
    );
    println!("CPU sorting works: {} >= {}", first_cpu, last_cpu);
    // test Memory sorting
    monitor.current_sort = SortBy::MemDesc;
    monitor.apply_sort();
    let first_mem = monitor.processes[0].memory_usage;
    let last_mem = monitor.processes[monitor.processes.len() - 1].memory_usage;
    assert!(
        first_mem >= last_mem,
        "Memory sorting failed: first ({}) < last ({})",
        first_mem,
        last_mem
    );
    println!("Memory sorting works: {} >= {}", first_mem, last_mem);
    // test Alphabetical sorting
    monitor.current_sort = SortBy::AlphaAsc;
    monitor.apply_sort();
    let first_name = shown(&monitor.processes[0].name);
    let second_name = shown(&monitor.processes[1].name);
    assert!(
        first_name <= second_name,
        "Alphabetical sorting failed: '{}' > '{}'",
        first_name,
        second_name
    );
    println!(
        "Alphabetical sorting works: '{}' <= '{}'",
        first_name, second_name
    );
    println!("Sorting functionality test passed!");
}

// test 4: process selection and details
#[test]
fn test_process_selection_and_details() {
    println!("Testing process selection and details...");
    let mut system = System::new_all();
    let mut monitor = start(&system);
    refresh(&mut monitor, &mut system);
    if monitor.processes.is_empty() {
        println!("No processes available");
        return;
    }
    let first_pid = monitor.processes[0].pid;
    monitor.selected_process = monitor
        .processes
        .iter()
        .find(|p| p.pid == first_pid)
        .cloned();
    assert!(monitor.selected_process.is_some());
    println!(
        "Process selected: {:?}",
        shown(&monitor.selected_process.as_ref().unwrap().name)
    );
    let selected = monitor.selected_process.as_ref().unwrap();
    assert!(selected.pid.as_u32() > 0);
    assert!(!selected.name.is_empty());
    println!("PID: {}", selected.pid.as_u32());
    println!("CPU: {:.2}%", reading(selected.cpu_usage));
    println!("Memory: {} bytes", selected.memory_usage);
    refresh(&mut monitor, &mut system);
    if let Some(still_selected) = &monitor.selected_process {
        println!("Selection persisted after refresh");
        assert_eq!(still_selected.pid, first_pid);
    } else {
        println!("Selection cleared (process may have ended)");
    }

    println!("Process selection and details test passed!");
}

// test 5: tab navigation
#[test]
fn test_tab_navigation() {
    println!("Testing tab navigation...");
    let mut monitor = start(&System::new_all());
    assert_eq!(monitor.active_tab, Tab::Processes);
    println!("Started on Processes tab");
    monitor.active_tab = Tab::System;
    assert_eq!(monitor.active_tab, Tab::System);
    println!("Navigated to System tab");
    monitor.active_tab = Tab::Settings;
    assert_eq!(monitor.active_tab, Tab::Settings);
    println!("Navigated to Settings tab");
    monitor.active_tab = Tab::Processes;
    assert_eq!(monitor.active_tab, Tab::Processes);
    println!("Navigated back to Processes tab");
    println!("Tab navigation test passed!");
}

// test 6: system information retrieval
#[test]
fn test_system_information_retrieval() {
    println!("Testing system information retrieval...");
    let system = System::new_all();
    let system_manager = facts(&system);
    // verify OS info
    assert!(!system_manager.os_name.is_empty());
    assert!(!system_manager.os_version.is_empty());
    assert!(!system_manager.kernel_version.is_empty());
    assert!(!system_manager.hostname.is_empty());
    println!("OS Name: {}", system_manager.os_name);
    println!("OS Version: {}", system_manager.os_version);
    println!("Kernel: {}", system_manager.kernel_version);
    println!("Hostname: {}", system_manager.hostname);
    // verify CPU info
    assert!(!system_manager.cpu_brand.is_empty());
    assert!(system_manager.cpu_cores > 0);
    println!("CPU: {}", system_manager.cpu_brand);
    println!("Cores: {}", system_manager.cpu_cores);
    // verify memory info
    assert!(system_manager.total_memory > 0);
    let used_memory = system.used_memory();
    assert!(used_memory > 0);
    assert!(used_memory <= system_manager.total_memory);
    println!(
        "Total Memory: {} MB",
        system_manager.total_memory / 1024 / 1024
    );
    println!("Used Memory: {} MB", used_memory / 1024 / 1024);
    println!("System information retrieval test passed!");
}
