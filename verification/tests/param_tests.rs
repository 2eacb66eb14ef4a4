use occupier_r::param::{parse_config, ArgValues, OsType, STORAGE_TEMP_DIR};

fn none() -> ArgValues {
    ArgValues {
        cpu: None,
        memory: None,
        storage: None,
        memory_size: None,
        storage_size: None,
        granularity: None,
        status: false,
    }
}

#[test]
fn defaults() {
    let c = parse_config(&none());
    assert_eq!(c.cpu_rate, 0);
    assert_eq!(c.memory_config.rate, 0);
    assert_eq!(c.memory_config.part_size_mb, 10);
    assert_eq!(c.storage_config.rate, 0);
    assert_eq!(c.storage_config.part_size_mb, 50);
    assert_eq!(c.granularity, 50);
    assert!(!c.display_system);
    assert!(c.nothing_to_occupy());
}

#[test]
fn values_and_bad_values() {
    let args = ArgValues {
        cpu: Some("60".to_string()),
        memory: Some("+42".to_string()),
        storage: Some("abc".to_string()),
        memory_size: Some("007".to_string()),
        storage_size: Some("70000".to_string()),
        granularity: Some("-5".to_string()),
        status: true,
    };
    let c = parse_config(&args);
    assert_eq!(c.cpu_rate, 60);
    assert_eq!(c.memory_config.rate, 42);
    assert_eq!(c.storage_config.rate, 0);
    assert_eq!(c.memory_config.part_size_mb, 7);
    assert_eq!(c.storage_config.part_size_mb, 50);
    assert_eq!(c.granularity, 50);
    assert!(c.display_system);
    assert!(!c.nothing_to_occupy());
}

#[test]
fn edge_strings() {
    let mut args = none();
    args.cpu = Some(String::new());
    args.memory = Some("+".to_string());
    args.storage = Some(" 5".to_string());
    args.memory_size = Some("65535".to_string());
    args.storage_size = Some("65536".to_string());
    args.granularity = Some("12345678".to_string());
    let c = parse_config(&args);
    assert_eq!(c.cpu_rate, 0);
    assert_eq!(c.memory_config.rate, 0);
    assert_eq!(c.storage_config.rate, 0);
    assert_eq!(c.memory_config.part_size_mb, 65535);
    assert_eq!(c.storage_config.part_size_mb, 50);
    assert_eq!(c.granularity, 12345678);
}

#[test]
fn rates_above_one_hundred_are_refused() {
    let mut args = none();
    args.cpu = Some("100".to_string());
    args.memory = Some("150".to_string());
    args.storage = Some("101".to_string());
    let c = parse_config(&args);
    assert_eq!(c.cpu_rate, 100);
    assert_eq!(c.memory_config.rate, 0);
    assert_eq!(c.storage_config.rate, 0);
    args.memory = Some("99999".to_string());
    assert_eq!(parse_config(&args).memory_config.rate, 0);
}

#[test]
fn os_names() {
    assert_eq!(OsType::current("linux"), OsType::Linux);
    assert_eq!(OsType::current("windows"), OsType::Windows);
    assert_eq!(OsType::current("macos"), OsType::MacOs);
    assert_eq!(OsType::current("freebsd"), OsType::Unknown);
    assert_eq!(OsType::current(""), OsType::Unknown);
}

#[test]
fn temp_dir_name() {
    assert_eq!(STORAGE_TEMP_DIR, "./storage_bucket_occupier_r_dsd1sakmf");
}
