use drbd_ha::nodes::AppError;
use drbd_ha::start_array::{replace_start_array, start_array_targets};

#[test]
fn start_array_is_replaced_in_place() {
    let content = "# keep me\n[[promoter]]\n[promoter.resources.r0]\nstart = [\"a.service\"]\nstop-services-on-exit = true\n";
    let out = replace_start_array("/etc/drbd-reactor.d/r0.toml", content, &vec!["x.mount".to_string(), "b.service".to_string()]).unwrap();
    assert!(out.contains("# keep me"));
    assert!(out.contains("\"x.mount\""));
    assert!(out.contains("\"b.service\""));
    assert!(!out.contains("a.service"));
    assert!(out.contains("stop-services-on-exit = true"));
}

#[test]
fn start_array_missing_or_unparsable() {
    let content = "[[promoter]]\n[promoter.resources.r0]\nstop-services-on-exit = true\n";
    match replace_start_array("p.toml", content, &vec![]) {
        Err(AppError::NotFound(m)) => assert_eq!(m, "Could not find 'start' array in TOML configuration"),
        _ => panic!("expected not found"),
    }
    match replace_start_array("p.toml", "[[promoter", &vec![]) {
        Err(AppError::Validation(m)) => assert!(m.starts_with("Failed to parse TOML file 'p.toml': ")),
        _ => panic!("expected a parse error"),
    }
}

#[test]
fn start_array_targets_are_the_tables_with_a_start_key() {
    let entries = vec![("r0".to_string(), true), ("r1".to_string(), false), ("r2".to_string(), true)];
    assert_eq!(start_array_targets("p.toml", Ok(entries)).unwrap(), vec!["r0".to_string(), "r2".to_string()]);
    match start_array_targets("p.toml", Ok(vec![("r1".to_string(), false)])) {
        Err(AppError::NotFound(m)) => assert_eq!(m, "Could not find 'start' array in TOML configuration"),
        _ => panic!("expected not found"),
    }
    match start_array_targets("p.toml", Err("bad".to_string())) {
        Err(AppError::Validation(m)) => assert_eq!(m, "Failed to parse TOML file 'p.toml': bad"),
        _ => panic!("expected a parse error"),
    }
}
