//! Which frequency bands of a spectrum hold no sample, and what they are filled
//! from.

use vstd::prelude::*;

verus! {

/// How many bands the visualizer shows.
pub const SPECTRUM_BANDS: usize = 32;

/// Where the level of a band comes from.
#[derive(Debug, Clone, Copy, PartialEq, Eq, Structural)]
pub enum BandSource {
    /// From its own samples.
    Sampled,
    /// From the nearest sampled bands on either side.
    Between { left: usize, right: usize },
    /// From the only sampled band that is near.
    Copy(usize),
    /// No band has samples.
    Silent,
}

/// A band has samples.
pub open spec fn sampled(counts: Seq<u16>, i: int) -> bool {
    0 <= i < counts.len() && counts[i] != 0
}

/// The nearest sampled band below `i`.
pub open spec fn nearest_below(counts: Seq<u16>, i: int) -> Option<usize>
    decreases i,
{
    if i <= 0 {
        None
    } else if sampled(counts, i - 1) {
        Some((i - 1) as usize)
    } else {
        nearest_below(counts, i - 1)
    }
}

/// The nearest sampled band from `i` up, before `len`.
pub open spec fn nearest_above(counts: Seq<u16>, i: int, len: int) -> Option<usize>
    decreases len - i,
{
    if i >= len {
        None
    } else if sampled(counts, i) {
        Some(i as usize)
    } else {
        nearest_above(counts, i + 1, len)
    }
}

/// Where the level of band `i` comes from.
pub open spec fn source_of(counts: Seq<u16>, i: int) -> BandSource {
    if sampled(counts, i) {
        BandSource::Sampled
    } else {
        match (nearest_below(counts, i), nearest_above(counts, i + 1, counts.len() as int)) {
            (Some(left), Some(right)) => BandSource::Between { left, right },
            (Some(left), None) => BandSource::Copy(left),
            (None, Some(right)) => BandSource::Copy(right),
            (None, None) => BandSource::Silent,
        }
    }
}

fn find_below(counts: &Vec<u16>, i: usize) -> (r: Option<usize>)
    requires
        i <= counts@.len(),
    ensures
        r == nearest_below(counts@, i as int),
{
    let mut k: usize = i;
    while k > 0
        invariant
            k <= i <= counts@.len(),
            nearest_below(counts@, k as int) == nearest_below(counts@, i as int),
        decreases k,
    {
        if counts[k - 1] != 0 {
            return Some(k - 1);
        }
        k = k - 1;
    }
    None
}

fn find_above(counts: &Vec<u16>, i: usize) -> (r: Option<usize>)
    requires
        i <= counts@.len(),
    ensures
        r == nearest_above(counts@, i as int, counts@.len() as int),
{
    let len: usize = counts.len();
    let mut k: usize = i;
    while k < len
        invariant
            i <= k <= len == counts@.len(),
            nearest_above(counts@, k as int, len as int) == nearest_above(
                counts@,
                i as int,
                len as int,
            ),
        decreases len - k,
    {
        if counts[k] != 0 {
            return Some(k);
        }
        k = k + 1;
    }
    None
}

/// Where the level of a band comes from: at low frequencies a band can be
/// narrower than one sample, and is filled from its neighbours, while a sampled
/// band that is silent stays silent.
pub fn band_source(counts: &Vec<u16>, band: usize) -> (r: BandSource)
    requires
        band < counts@.len(),
    ensures
        r == source_of(counts@, band as int),
{
    let len: usize = counts.len();
    proof {
        assert(band < len);
    }
    if counts[band] != 0 {
        return BandSource::Sampled;
    }
    match (find_below(counts, band), find_above(counts, band + 1)) {
        (Some(left), Some(right)) => BandSource::Between { left, right },
        (Some(left), None) => BandSource::Copy(left),
        (None, Some(right)) => BandSource::Copy(right),
        (None, None) => BandSource::Silent,
    }
}

/// A band is only ever filled from bands with samples of their own, on the sides
/// they are on.
pub proof fn holes_are_filled_from_samples(counts: Seq<u16>, band: int)
    requires
        0 <= band < counts.len() <= usize::MAX,
    ensures
        source_of(counts, band) matches BandSource::Between { left, right } ==> left < band < right
            && sampled(counts, left as int) && sampled(counts, right as int),
        source_of(counts, band) matches BandSource::Copy(from) ==> sampled(counts, from as int)
            && from != band,
{
    below_is_sampled(counts, band);
    above_is_sampled(counts, band + 1, counts.len() as int);
}

proof fn below_is_sampled(counts: Seq<u16>, i: int)
    requires
        i <= counts.len() <= usize::MAX,
    ensures
        nearest_below(counts, i) matches Some(k) ==> k < i && sampled(counts, k as int),
    decreases i,
{
    if i > 0 {
        below_is_sampled(counts, i - 1);
    }
}

proof fn above_is_sampled(counts: Seq<u16>, i: int, len: int)
    requires
        0 <= i,
        len <= counts.len() <= usize::MAX,
    ensures
        nearest_above(counts, i, len) matches Some(k) ==> i <= k && sampled(counts, k as int),
    decreases len - i,
{
    if i < len {
        above_is_sampled(counts, i + 1, len);
    }
}

} // verus!
