//! Range checks for limbs of emulated foreign-field values: the bit widths of
//! the leading-limb tables, the contents of the four lookup tables, and the
//! selectors that each kind of row enables.
pub mod gate;
pub mod tables;
pub mod widths;
