//! Exact algebra of the basis and frame transformations.
//!
//! The coordinate kit rotates vectors with axis rotations built from a
//! cosine/sine pair, and changes basis with the spherical matrix built
//! from the pairs at (theta, phi).  Every inverse property of those
//! matrices rests on one fact alone: each pair satisfies
//! `c*c + s*s == 1`.  This module states the matrices over exact integer
//! components and proves the inverse laws from that hypothesis, so the
//! floating-point kit's round trips fail only by rounding, never by the
//! algebra.

use vstd::prelude::*;

verus! {

/// A vector of three exact components.
pub type Triple = (int, int, int);

/// A 3 x 3 matrix as three rows of exact components.
pub type Matrix = (Triple, Triple, Triple);

/// The matrix-vector product.
pub open spec fn mat_vec(m: Matrix, v: Triple) -> Triple {
    (
        m.0.0 * v.0 + m.0.1 * v.1 + m.0.2 * v.2,
        m.1.0 * v.0 + m.1.1 * v.1 + m.1.2 * v.2,
        m.2.0 * v.0 + m.2.1 * v.1 + m.2.2 * v.2,
    )
}

/// Whether `(c, s)` is a unit cosine/sine pair.
pub open spec fn unit_pair(c: int, s: int) -> bool {
    c * c + s * s == 1
}

/// The right-hand-rule rotation about the x axis with cosine `c` and
/// sine `s`.
pub open spec fn rot_x(c: int, s: int) -> Matrix {
    ((1, 0, 0), (0, c, -s), (0, s, c))
}

/// The right-hand-rule rotation about the y axis.
pub open spec fn rot_y(c: int, s: int) -> Matrix {
    ((c, 0, s), (0, 1, 0), (-s, 0, c))
}

/// The right-hand-rule rotation about the z axis.
pub open spec fn rot_z(c: int, s: int) -> Matrix {
    ((c, -s, 0), (s, c, 0), (0, 0, 1))
}

/// Rotating about x by an angle and then by its opposite returns every
/// vector unchanged.
pub proof fn lemma_rot_x_round_trip(c: int, s: int, v: Triple)
    requires
        unit_pair(c, s),
    ensures
        mat_vec(rot_x(c, s), mat_vec(rot_x(c, -s), v)) == v,
{
    assert(mat_vec(rot_x(c, s), mat_vec(rot_x(c, -s), v)) == v) by (nonlinear_arith)
        requires c * c + s * s == 1
    ;
}

/// Rotating about y by an angle and then by its opposite returns every
/// vector unchanged.
pub proof fn lemma_rot_y_round_trip(c: int, s: int, v: Triple)
    requires
        unit_pair(c, s),
    ensures
        mat_vec(rot_y(c, s), mat_vec(rot_y(c, -s), v)) == v,
{
    assert(mat_vec(rot_y(c, s), mat_vec(rot_y(c, -s), v)) == v) by (nonlinear_arith)
        requires c * c + s * s == 1
    ;
}

/// Rotating about z by an angle and then by its opposite returns every
/// vector unchanged.
pub proof fn lemma_rot_z_round_trip(c: int, s: int, v: Triple)
    requires
        unit_pair(c, s),
    ensures
        mat_vec(rot_z(c, s), mat_vec(rot_z(c, -s), v)) == v,
{
    assert(mat_vec(rot_z(c, s), mat_vec(rot_z(c, -s), v)) == v) by (nonlinear_arith)
        requires c * c + s * s == 1
    ;
}

/// The tilted-frame mapping: rotate by the opposite of the azimuthal tilt
/// about z, then by the opposite of the polar tilt about y.  `(ct, st)`
/// and `(cp, sp)` are the cosine/sine pairs of the two tilt angles.
pub open spec fn iau_to_mag(ct: int, st: int, cp: int, sp: int, v: Triple) -> Triple {
    mat_vec(rot_y(ct, -st), mat_vec(rot_z(cp, -sp), v))
}

/// The inverse mapping: rotate by the polar tilt about y, then by the
/// azimuthal tilt about z.
pub open spec fn mag_to_iau(ct: int, st: int, cp: int, sp: int, v: Triple) -> Triple {
    mat_vec(rot_z(cp, sp), mat_vec(rot_y(ct, st), v))
}

/// Mapping a vector into the tilted frame and back returns it unchanged,
/// for every vector and every pair of tilt angles.
pub proof fn lemma_frame_round_trip(ct: int, st: int, cp: int, sp: int, v: Triple)
    requires
        unit_pair(ct, st),
        unit_pair(cp, sp),
    ensures
        mag_to_iau(ct, st, cp, sp, iau_to_mag(ct, st, cp, sp, v)) == v,
{
    let w = mat_vec(rot_z(cp, -sp), v);
    lemma_rot_y_round_trip(ct, st, w);
    lemma_rot_z_round_trip(cp, sp, v);
}

/// A quarter turn about z carries the x unit vector onto the y unit
/// vector, exactly.
pub proof fn lemma_quarter_turn_about_z()
    ensures
        mat_vec(rot_z(0, 1), (1, 0, 0)) == ((0int, 1int, 0int)),
{
}

/// A half turn about z negates the two equatorial components and keeps
/// the axial one: the flip under which an axisymmetric field repeats.
pub proof fn lemma_half_turn_about_z(v: Triple)
    ensures
        mat_vec(rot_z(-1, 0), v) == ((-v.0, -v.1, v.2)),
{
}

/// The change of basis from spherical to Cartesian components at a point
/// whose colatitude and azimuth have the pairs `(ct, st)` and `(cp, sp)`.
pub open spec fn basis_rtp_to_xyz(ct: int, st: int, cp: int, sp: int) -> Matrix {
    ((st * cp, ct * cp, -sp), (st * sp, ct * sp, cp), (ct, -st, 0))
}

/// The change of basis from Cartesian to spherical components at the
/// same point: the transpose of [`basis_rtp_to_xyz`].
pub open spec fn basis_xyz_to_rtp(ct: int, st: int, cp: int, sp: int) -> Matrix {
    ((st * cp, st * sp, ct), (ct * cp, ct * sp, -st), (-sp, cp, 0))
}

/// The two basis matrices at one point are mutually inverse: converting
/// vector components to the Cartesian basis and back returns them
/// unchanged, for every vector and every point.
pub proof fn lemma_basis_round_trip(ct: int, st: int, cp: int, sp: int, v: Triple)
    requires
        unit_pair(ct, st),
        unit_pair(cp, sp),
    ensures
        mat_vec(basis_xyz_to_rtp(ct, st, cp, sp), mat_vec(basis_rtp_to_xyz(ct, st, cp, sp), v))
            == v,
{
    assert(mat_vec(basis_xyz_to_rtp(ct, st, cp, sp), mat_vec(basis_rtp_to_xyz(ct, st, cp, sp), v))
        == v) by (nonlinear_arith)
        requires ct * ct + st * st == 1, cp * cp + sp * sp == 1
    ;
}

} // verus!
