use occupier_r::cpu::CPUOccupyConfig;

#[test]
fn test_module1() {
    let _ = CPUOccupyConfig::new(0);
}

#[test]
fn test_module2() {
    let _ = CPUOccupyConfig::new(0);
}
