use mid_side_swapper::layout::{
    audio_io_layouts, default_layout, stereo_layout, supports_layout, AudioIoLayout,
    STEREO_CHANNELS,
};

fn layout(input: u32, output: u32, aux_in: Vec<u32>, aux_out: Vec<u32>) -> AudioIoLayout {
    AudioIoLayout {
        main_input_channels: input,
        main_output_channels: output,
        aux_input_ports: aux_in,
        aux_output_ports: aux_out,
    }
}

#[test]
fn exactly_one_stereo_layout_is_offered() {
    let layouts = audio_io_layouts();
    assert_eq!(layouts.len(), 1);
    assert_eq!(layouts[0], layout(2, 2, Vec::new(), Vec::new()));
    assert_eq!(STEREO_CHANNELS, 2);
}

#[test]
fn default_layout_is_the_first_offered() {
    assert_eq!(default_layout(), audio_io_layouts().remove(0));
    assert_eq!(default_layout(), stereo_layout());
}

#[test]
fn only_stereo_without_aux_ports_is_supported() {
    assert!(supports_layout(&stereo_layout()));
    assert!(!supports_layout(&layout(1, 1, Vec::new(), Vec::new())));
    assert!(!supports_layout(&layout(2, 1, Vec::new(), Vec::new())));
    assert!(!supports_layout(&layout(0, 2, Vec::new(), Vec::new())));
    assert!(!supports_layout(&layout(2, 2, vec![2], Vec::new())));
    assert!(!supports_layout(&layout(2, 2, Vec::new(), vec![1])));
    assert!(!supports_layout(&layout(6, 6, Vec::new(), Vec::new())));
}
