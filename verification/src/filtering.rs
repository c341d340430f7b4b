//! Filters for downsampling a supersampled export.

use vstd::prelude::*;

verus! {

/// Filter applied when a supersampled render is reduced to the export size.
#[derive(Debug, Clone, Copy, PartialEq, Eq, Structural)]
pub enum FilterType {
    /// No filtering: the render is written at its own size (shown as `None`).
    NoFilter,
    Lanczos3,
    Gaussian,
}

impl FilterType {
    /// Every filter, in the order the export panel lists them.
    pub const ALL: [FilterType; 3] = [FilterType::NoFilter, FilterType::Lanczos3, FilterType::Gaussian];

    /// The name under which the filter is shown and stored in metadata.
    pub open spec fn spec_name(self) -> Seq<char> {
        match self {
            FilterType::NoFilter => "None"@,
            FilterType::Lanczos3 => "Lanczos3"@,
            FilterType::Gaussian => "Gaussian"@,
        }
    }

    pub fn as_str(&self) -> (r: &'static str)
        ensures
            r@ == self.spec_name(),
    {
        match self {
            FilterType::NoFilter => "None",
            FilterType::Lanczos3 => "Lanczos3",
            FilterType::Gaussian => "Gaussian",
        }
    }
}

impl Default for FilterType {
    fn default() -> (r: Self)
        ensures
            r == FilterType::NoFilter,
    {
        FilterType::NoFilter
    }
}

/// `a * b`, held at `u32::MAX` where it would not fit.
pub open spec fn saturated_product(a: u32, b: u32) -> u32 {
    if a * b > u32::MAX {
        u32::MAX
    } else {
        (a * b) as u32
    }
}

/// The saturating product is the product wherever that fits in a `u32`, and
/// `u32::MAX` where it does not; it never lies above the product.
pub proof fn lemma_saturated_product(a: u32, b: u32)
    ensures
        a * b <= u32::MAX ==> saturated_product(a, b) == a * b,
        a * b > u32::MAX ==> saturated_product(a, b) == u32::MAX,
        saturated_product(a, b) <= a * b,
{
}

fn saturating_product(a: u32, b: u32) -> (r: u32)
    ensures
        r == saturated_product(a, b),
{
    match a.checked_mul(b) {
        Some(v) => v,
        None => u32::MAX,
    }
}

/// The size at which a supersampled export is rendered: each side times the
/// supersample factor, held at `u32::MAX`.
pub fn calculate_supersample_dimensions(width: u32, height: u32, supersample: u32) -> (r: (u32, u32))
    ensures
        r.0 == saturated_product(width, supersample),
        r.1 == saturated_product(height, supersample),
        width * supersample <= u32::MAX ==> r.0 == width * supersample,
        width * supersample > u32::MAX ==> r.0 == u32::MAX,
        height * supersample <= u32::MAX ==> r.1 == height * supersample,
        height * supersample > u32::MAX ==> r.1 == u32::MAX,
{
    (saturating_product(width, supersample), saturating_product(height, supersample))
}

} // verus!
