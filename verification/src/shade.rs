//! Ambient-occlusion shading: a fixed grey for each occlusion sample.

use vstd::prelude::*;

verus! {

/// A colour with channels in hundredths of full intensity.
#[derive(Clone, Copy, Debug, PartialEq, Eq, Hash, Structural)]
pub struct Rgba {
    pub r: u8,
    pub g: u8,
    pub b: u8,
    pub a: u8,
}

/// The opaque grey of the given level, in hundredths.
pub open spec fn grey(level: u8) -> Rgba {
    Rgba { r: level, g: level, b: level, a: 100 }
}

/// The colour of one occlusion sample: 0.1, 0.3, 0.5 and 0.75 grey for the
/// samples 0 to 3, and white for any other sample.
pub open spec fn swatch(sample: u8) -> Rgba {
    if sample == 0 {
        grey(10)
    } else if sample == 1 {
        grey(30)
    } else if sample == 2 {
        grey(50)
    } else if sample == 3 {
        grey(75)
    } else {
        grey(100)
    }
}

/// The colours of a sequence of occlusion samples.
pub open spec fn swatches(samples: Seq<u8>) -> Seq<Rgba> {
    Seq::new(samples.len(), |i: int| swatch(samples[i]))
}

/// The colour of one occlusion sample.
pub fn ao_color(sample: u8) -> (color: Rgba)
    ensures
        color == swatch(sample),
{
    let level: u8 = if sample == 0 {
        10
    } else if sample == 1 {
        30
    } else if sample == 2 {
        50
    } else if sample == 3 {
        75
    } else {
        100
    };
    Rgba { r: level, g: level, b: level, a: 100 }
}

/// Turns occlusion samples into vertex colours, one for one and in order.
///
/// `num_vertices` is the number of colours the caller expects; room is
/// reserved for that many, or for one per sample if that is fewer. It has no
/// bearing on the result.
pub fn ao_convert(ao: Vec<u8>, num_vertices: usize) -> (colors: Vec<Rgba>)
    ensures
        colors@ == swatches(ao@),
{
    let room = if num_vertices < ao.len() {
        num_vertices
    } else {
        ao.len()
    };
    let mut colors: Vec<Rgba> = Vec::with_capacity(room);
    let mut i: usize = 0;
    while i < ao.len()
        invariant
            i <= ao@.len(),
            colors@ == swatches(ao@.take(i as int)),
        decreases ao@.len() - i,
    {
        colors.push(ao_color(ao[i]));
        assert(colors@ =~= swatches(ao@.take(i + 1)));
        i += 1;
    }
    colors
}

} // verus!
