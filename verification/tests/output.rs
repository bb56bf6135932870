use mekanikci::backend::OutputFiles;
use mekanikci::output::output_dir_name;

#[test]
fn output_dir_named_after_start_time() {
    assert_eq!(output_dir_name(Some(1700000000)), "conveyor_1700000000");
    assert_eq!(output_dir_name(Some(0)), "conveyor_0");
    assert_eq!(output_dir_name(None), "conveyor_0");
    assert_eq!(output_dir_name(Some(u64::MAX)), "conveyor_18446744073709551615");
    assert!(output_dir_name(Some(42)).contains("conveyor_"));
}

#[test]
fn output_files_default_to_none() {
    let files = OutputFiles::default();
    assert!(files.scad_path.is_none());
    assert!(files.stl_path.is_none());
    assert!(files.step_path.is_none());
    assert!(files.bom_path.is_none());
}
