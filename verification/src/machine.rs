//! What the machine decides.

use vstd::prelude::*;

verus! {

/// The machine keeps the lowest byte of a number first.
pub open spec fn lowest_byte_first() -> bool {
    vstd::endian::endianness() == vstd::endian::Endian::Little
}

} // verus!
