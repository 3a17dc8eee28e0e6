//! Discrete core of a planetary magnetic-field library.
//!
//! The numerical kernels (spherical-harmonic series, current-sheet
//! formulae, field-line integration) run on real numbers and live in the
//! unverified application layer.  Everything about those computations
//! that is exact and discrete is gathered here and verified: the rational
//! coefficients of the Legendre recursions, the algebra of the frame and
//! basis transformations, the validation of model tables and sheet
//! parameters, the batch adapter, and the assembly of traced polylines.

pub mod batch;
pub mod frames;
pub mod legendre;
pub mod model;
pub mod sheet;
pub mod text;
pub mod trace;
