use transr::func::rnet::Response;
use transr::func::sysez::SysEz;
use transr::func::sysez::SystemInfo;
use transr::func::sysez::SystemProbe;

fn probe() -> SystemProbe {
    SystemProbe {
        os_name: Some("Linux".to_string()),
        os_version: None,
        kernel_version: Some("6.1".to_string()),
        hostname: None,
        cpu_brand: Some("Fast".to_string()),
        cpu_count: 8,
        total_memory: 1024,
        used_memory: 512,
        total_swap: 64,
        used_swap: 0,
        uptime: 99,
    }
}

#[test]
fn gaps_read_unknown() {
    let info = SystemInfo::from_probe(probe());
    assert_eq!(info.os_name, "Linux");
    assert_eq!(info.os_version, "Unknown");
    assert_eq!(info.kernel_version, "6.1");
    assert_eq!(info.hostname, "Unknown");
    assert_eq!(info.cpu_brand, "Fast");
    assert_eq!(info.cpu_count, 8);
    assert_eq!(info.total_memory, 1024);
    assert_eq!(info.used_memory, 512);
    assert_eq!(info.total_swap, 64);
    assert_eq!(info.used_swap, 0);
    assert_eq!(info.uptime, 99);
    let mut bare = probe();
    bare.cpu_brand = None;
    bare.os_name = None;
    let info = SystemInfo::from_probe(bare);
    assert_eq!(info.cpu_brand, "Unknown");
    assert_eq!(info.os_name, "Unknown");
}

#[test]
fn summary_names_system_processor_and_memory() {
    let info = SystemInfo::from_probe(probe());
    assert_eq!(
        info.summary(),
        "System: Linux (Unknown); CPU: Fast (8 cores); RAM: 512 / 1024 bytes"
    );
}

#[test]
fn the_probe_reads_the_machine() {
    let mut sys = SysEz::new();
    sys.refresh();
    let info = sys.get_system_info().unwrap();
    assert!(!info.os_name.is_empty());
    assert!(info.used_memory <= info.total_memory);
    let _disks = sys.get_disks();
}

#[test]
fn responses_hold_their_headers() {
    let mut response = Response::new(201, "body".to_string(), "http://h".to_string());
    assert_eq!(response.status, 201);
    assert_eq!(response.body, "body");
    assert_eq!(response.url, "http://h");
    assert!(response.headers.is_empty());
    response.set_header("A".to_string(), "1".to_string());
    response.set_header("A".to_string(), "2".to_string());
    response.set_header("B".to_string(), "3".to_string());
    assert_eq!(response.headers.len(), 2);
    assert_eq!(response.headers.get("A"), Some(&"2".to_string()));
    assert_eq!(response.headers.get("C"), None);
}
