use vstd::prelude::*;

verus! {

/// The color scheme the desktop settings ask for.
#[derive(Clone, Copy, Debug, PartialEq, Eq, Structural)]
pub enum Scheme {
    /// No preference.
    Default,
    /// Prefer dark appearance.
    Dark,
    /// Prefer light appearance.
    Light,
}

/// Decode the desktop portal's color-scheme setting: one asks for dark,
/// two for light, anything else states no preference.
pub fn scheme_from_raw(v: u32) -> (r: Scheme)
    ensures
        v == 1 ==> r is Dark,
        v == 2 ==> r is Light,
        v != 1 && v != 2 ==> r is Default,
{
    if v == 1 {
        Scheme::Dark
    } else if v == 2 {
        Scheme::Light
    } else {
        Scheme::Default
    }
}

} // verus!
