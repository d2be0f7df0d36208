/// Verify the crate compiles and its types are accessible.
#[test]
fn joltshark_accessible() {
    let _: joltshark::GridCommand<f64> = joltshark::GridCommand::Hold;
}
