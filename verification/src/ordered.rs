//! The ordered load/store seam between the driver and the display memory.
//!
//! The grid is shared with hardware that may observe it between any two
//! instructions, so every cell access must reach memory exactly as written:
//! never elided, merged, or reordered by the optimizer. The `volatile`
//! crate's value wrapper gives that guarantee; this module declares the
//! wrapper type to the verifier, names the value it holds, and exposes the
//! three accesses the driver needs. Everything above this seam is verified
//! against [`contents`] alone.

use vstd::prelude::*;

verus! {

/// Declares `volatile::Volatile` to the verifier. The type is opaque here:
/// what a cell holds is spoken of only through [`contents`].
#[verifier::external_type_specification]
#[verifier::external_body]
#[verifier::reject_recursive_types(T)]
pub struct ExVolatile<T: Copy>(volatile::Volatile<T>);

/// The packed two-byte cell value a `Volatile<u16>` holds. The wrapper
/// stores exactly the value last written to it, so its contents are a
/// function of the wrapper value itself; the three accessors below say how
/// each call relates to it.
pub uninterp spec fn contents(cell: volatile::Volatile<u16>) -> u16;

/// Relies on `volatile::Volatile::new`: wraps the given value, so the new
/// cell holds it. Never panics.
#[verifier::external_body]
pub fn ordered_cell(value: u16) -> (cell: volatile::Volatile<u16>)
    ensures
        contents(cell) == value,
{
    volatile::Volatile::new(value)
}

/// Relies on `volatile::Volatile::read`: a volatile load of the wrapped
/// value, which the optimizer may not elide or reorder. Returns a copy of
/// what the cell holds. Never panics.
#[verifier::external_body]
pub fn ordered_read(cell: &volatile::Volatile<u16>) -> (value: u16)
    ensures
        value == contents(*cell),
{
    cell.read()
}

/// Relies on `volatile::Volatile::write`: a volatile store of the given
/// value, which the optimizer may not elide, merge, or reorder. Afterwards
/// the cell holds exactly that value. Never panics.
#[verifier::external_body]
pub fn ordered_write(cell: &mut volatile::Volatile<u16>, value: u16)
    ensures
        contents(*final(cell)) == value,
{
    cell.write(value)
}

} // verus!
