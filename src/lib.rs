//! A sheet-metal bending job: a sheet, an ordered sequence of bends, the rules
//! that validate edits to them, and the derived state that edits invalidate.
//!
//! Lengths are held in micrometres (thousandths of a millimetre) and angles in
//! thousandths of a degree, so that every bound is checked exactly.

pub mod db;
pub mod decimal;
pub mod imaging;
pub mod logic;
pub mod state;
pub mod validation;
