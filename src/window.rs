//! Managed windows and their size hints.
use vstd::prelude::*;

verus! {

/// Position and size of a window.
#[derive(Copy, Clone, Debug, PartialEq, Eq, Structural)]
pub struct Geometry {
    pub x: i16,
    pub y: i16,
    pub width: u16,
    pub height: u16,
}

/// A 32-bit value cut down to its low 16 bits.
pub open spec fn low16(v: i32) -> u16 {
    ((v as int) % 0x10000) as u16
}

/// A size hint cut down to 16-bit components.
pub fn into_u16(val: (i32, i32)) -> (r: (u16, u16))
    ensures
        r.0 == low16(val.0),
        r.1 == low16(val.1),
{
    (low_half(val.0), low_half(val.1))
}

fn low_half(v: i32) -> (r: u16)
    ensures
        r == low16(v),
{
    if v >= 0 {
        (v % 0x10000) as u16
    } else {
        let w: i64 = v as i64 + 0x1_0000_0000i64;
        proof {
            vstd::arithmetic::div_mod::lemma_mod_add_multiples_vanish(v as int, 0x10000);
            assert((v as int + 0x1_0000_0000) % 0x10000 == (v as int) % 0x10000) by {
                vstd::arithmetic::div_mod::lemma_mod_multiples_vanish(0x10000, v as int, 0x10000);
            }
        }
        (w % 0x10000) as u16
    }
}

/// A window under management: its id, geometry and size hints.
#[derive(Copy, Clone, Debug)]
pub struct Window {
    pub id: u32,
    pub geom: Geometry,
    pub base_size: (u16, u16),
    pub min_size: (u16, u16),
    pub max_size: (u16, u16),
    pub monitor: u32,
}

/// A size hint, or (0, 0) where the window gave none.
pub open spec fn size_or_zero(hint: Option<(i32, i32)>) -> (u16, u16) {
    match hint {
        Some(v) => (low16(v.0), low16(v.1)),
        None => (0, 0),
    }
}

impl Window {
    /// The window `id` with geometry `geom` and the base, minimum and maximum
    /// sizes from its normal hints; a size the hints lack is (0, 0).
    pub fn from_id(
        id: u32,
        geom: Geometry,
        base: Option<(i32, i32)>,
        min: Option<(i32, i32)>,
        max: Option<(i32, i32)>,
    ) -> (r: Window)
        ensures
            r.id == id,
            r.geom == geom,
            r.base_size == size_or_zero(base),
            r.min_size == size_or_zero(min),
            r.max_size == size_or_zero(max),
            r.monitor == 0,
    {
        Window {
            id,
            geom,
            base_size: size_or_zero_of(base),
            min_size: size_or_zero_of(min),
            max_size: size_or_zero_of(max),
            monitor: 0,
        }
    }
}

fn size_or_zero_of(hint: Option<(i32, i32)>) -> (r: (u16, u16))
    ensures
        r == size_or_zero(hint),
{
    match hint {
        Some(v) => into_u16(v),
        None => (0, 0),
    }
}

} // verus!
