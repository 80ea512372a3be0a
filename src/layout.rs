use vstd::prelude::*;

verus! {

/// Channel count of the main input and output ports of the one supported layout.
pub const STEREO_CHANNELS: u32 = 2;

/// One channel configuration the effect can run in.  A main port count of zero
/// means that the port is absent; each auxiliary port is given by its channel count.
#[derive(Debug, PartialEq, Eq)]
pub struct AudioIoLayout {
    pub main_input_channels: u32,
    pub main_output_channels: u32,
    pub aux_input_ports: Vec<u32>,
    pub aux_output_ports: Vec<u32>,
}

/// Stereo in, stereo out, no auxiliary ports.
pub open spec fn is_stereo(layout: AudioIoLayout) -> bool {
    &&& layout.main_input_channels == STEREO_CHANNELS
    &&& layout.main_output_channels == STEREO_CHANNELS
    &&& layout.aux_input_ports@.len() == 0
    &&& layout.aux_output_ports@.len() == 0
}

/// The stereo layout.
pub fn stereo_layout() -> (r: AudioIoLayout)
    ensures
        is_stereo(r),
{
    AudioIoLayout {
        main_input_channels: STEREO_CHANNELS,
        main_output_channels: STEREO_CHANNELS,
        aux_input_ports: Vec::new(),
        aux_output_ports: Vec::new(),
    }
}

/// Every layout the effect offers, in order of preference: the stereo layout alone.
pub fn audio_io_layouts() -> (r: Vec<AudioIoLayout>)
    ensures
        r@.len() == 1,
        is_stereo(r@[0]),
{
    let mut layouts: Vec<AudioIoLayout> = Vec::new();
    layouts.push(stereo_layout());
    layouts
}

/// The layout used when the host asks for none in particular: the first one offered.
pub fn default_layout() -> (r: AudioIoLayout)
    ensures
        is_stereo(r),
{
    let mut layouts = audio_io_layouts();
    layouts.swap_remove(0)
}

/// Whether the effect can run in `layout`: only the stereo layout is offered.
pub fn supports_layout(layout: &AudioIoLayout) -> (r: bool)
    ensures
        r == is_stereo(*layout),
{
    layout.main_input_channels == STEREO_CHANNELS && layout.main_output_channels
        == STEREO_CHANNELS && layout.aux_input_ports.len() == 0 && layout.aux_output_ports.len()
        == 0
}

} // verus!
