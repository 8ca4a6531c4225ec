use waycore::output::{
    OutputMode, OutputTransform, VirtualOutput, OUTPUT_HEIGHT, OUTPUT_REFRESH_MHZ, OUTPUT_SCALE,
    OUTPUT_WIDTH,
};

#[test]
fn virtual_output_reports_exactly_one_preferred_mode() {
    let output = VirtualOutput::create();
    assert_eq!(output.mode_count(), 1);
    let expected = OutputMode { width: 4096, height: 4096, refresh_mhz: 60000 };
    assert_eq!(output.preferred_mode(), expected);
    assert_eq!(output.current_mode(), expected);
}

#[test]
fn virtual_output_matches_configured_geometry() {
    let output = VirtualOutput::create();
    let mode = output.current_mode();
    assert_eq!(mode.width, OUTPUT_WIDTH);
    assert_eq!(mode.height, OUTPUT_HEIGHT);
    assert_eq!(mode.refresh_mhz, OUTPUT_REFRESH_MHZ);
    assert_eq!(output.scale(), OUTPUT_SCALE);
    assert_eq!(output.scale(), 2);
    assert_eq!(output.transform(), OutputTransform::Identity);
}

#[test]
fn virtual_output_carries_descriptive_metadata() {
    let output = VirtualOutput::create();
    assert_eq!(output.name().as_str(), "1x");
    assert_eq!(output.make().as_str(), "Virtual XR Display");
    assert_eq!(output.model().as_str(), "Your Headset Name Here");
}
