use iupitermag::legendre::{recursion_coefficient, recursion_coefficients, schmidt_step, MAX_DEGREE};

#[test]
fn recursion_coefficient_small_degrees() {
    // K(n,m) = ((n-1)^2 - m^2) / ((2n-1)(2n-3))
    assert_eq!(recursion_coefficient(2, 0), (1, 3));
    assert_eq!(recursion_coefficient(2, 1), (0, 3));
    assert_eq!(recursion_coefficient(3, 0), (4, 15));
    assert_eq!(recursion_coefficient(3, 1), (3, 15));
    assert_eq!(recursion_coefficient(3, 2), (0, 15));
    assert_eq!(recursion_coefficient(5, 3), (7, 63));
}

#[test]
fn recursion_coefficient_at_the_largest_degree() {
    let n = MAX_DEGREE;
    let nm1 = (n - 1) as u64;
    assert_eq!(
        recursion_coefficient(n, 0),
        (nm1 * nm1, (2 * n as u64 - 1) * (2 * n as u64 - 3))
    );
    // On the sub-diagonal the numerator vanishes.
    assert_eq!(recursion_coefficient(n, n - 1).0, 0);
}

#[test]
fn recursion_coefficients_smallest_tables() {
    let table = recursion_coefficients(0);
    assert_eq!(table, vec![vec![(0, 1)]]);
    let table = recursion_coefficients(1);
    assert_eq!(table, vec![vec![(0, 1), (0, 1)], vec![(0, 1), (0, 1)]]);
}

#[test]
fn recursion_coefficient_matches_float_form() {
    let (num, den) = recursion_coefficient(2, 0);
    let k = num as f64 / den as f64;
    assert!((k - 1.0 / 3.0).abs() < 1e-15);
    let (num, den) = recursion_coefficient(4, 2);
    let k = num as f64 / den as f64;
    assert!((k - 5.0 / 35.0).abs() < 1e-15);
}

#[test]
fn recursion_coefficients_table_shape_and_entries() {
    let table = recursion_coefficients(3);
    assert_eq!(table.len(), 4);
    for row in &table {
        assert_eq!(row.len(), 4);
    }
    // Entries the recursion reads.
    assert_eq!(table[2][0], (1, 3));
    assert_eq!(table[2][1], (0, 3));
    assert_eq!(table[3][0], (4, 15));
    assert_eq!(table[3][1], (3, 15));
    assert_eq!(table[3][2], (0, 15));
    // Entries the recursion never reads hold the neutral fraction.
    assert_eq!(table[0][0], (0, 1));
    assert_eq!(table[1][0], (0, 1));
    assert_eq!(table[1][1], (0, 1));
    assert_eq!(table[2][2], (0, 1));
    assert_eq!(table[2][3], (0, 1));
    assert_eq!(table[3][3], (0, 1));
}

#[test]
fn schmidt_step_small_degrees() {
    // m = 0: the direct ratio (2n-1)/n.
    assert_eq!(schmidt_step(1, 0), (1, 1));
    assert_eq!(schmidt_step(2, 0), (3, 2));
    assert_eq!(schmidt_step(3, 0), (5, 3));
    // m = 1: the squared ratio 2n/(n+1).
    assert_eq!(schmidt_step(1, 1), (2, 2));
    assert_eq!(schmidt_step(2, 1), (4, 3));
    // m >= 2: the squared ratio (n-m+1)/(n+m).
    assert_eq!(schmidt_step(2, 2), (1, 4));
    assert_eq!(schmidt_step(3, 2), (2, 5));
    assert_eq!(schmidt_step(3, 3), (1, 6));
}

// The degree-one recursion driven by the library's exact factors: after
// semi-normalization P(1,0) = cos(theta) and P(1,1) = sin(theta).
#[test]
fn test_assoc_legendre_poly() {
    let xarr = vec![0., 0.2, 0.4, 0.6, 0.8, 1.0];
    let val_check = vec![
        [0., 1.],
        [0.2, 0.9798],
        [0.4, 0.9165],
        [0.6, 0.8],
        [0.8, 0.6],
        [1., 0.],
    ];
    for iarr in 0..6 {
        let theta = (xarr[iarr] as f64).acos();
        // Base cases of the Gauss-normalized recursion.
        let p10 = theta.cos();
        let p11 = theta.sin();
        // Semi-normalization from the verified step ratios.
        let (num, den) = schmidt_step(1, 0);
        let s10 = num as f64 / den as f64;
        let (num, den) = schmidt_step(1, 1);
        let s11 = s10 * (num as f64 / den as f64).sqrt();
        let p = [p10 * s10, p11 * s11];
        for j in 0..2 {
            assert!(
                val_check[iarr][j] - p[j] < 1e-5,
                "calculated {:?}, expected {:?}",
                p[j],
                val_check[iarr][j]
            );
        }
    }
}

#[test]
fn schmidt_steps_reproduce_closed_forms() {
    // Rebuild the semi-normalization table the way the numeric layer does
    // and compare against the closed-form Schmidt factors.
    let degree = 2;
    let mut s = vec![vec![1.0f64; degree + 1]; degree + 1];
    for n in 1..=degree {
        let (num, den) = schmidt_step(n, 0);
        s[n][0] = s[n - 1][0] * num as f64 / den as f64;
        let (num, den) = schmidt_step(n, 1);
        s[n][1] = s[n][0] * (num as f64 / den as f64).sqrt();
        for m in 2..=n {
            let (num, den) = schmidt_step(n, m);
            s[n][m] = s[n][m - 1] * (num as f64 / den as f64).sqrt();
        }
    }
    // Degree one is left untouched by semi-normalization.
    assert!((s[1][0] - 1.0).abs() < 1e-15);
    assert!((s[1][1] - 1.0).abs() < 1e-15);
    // Degree two closed forms: 3/2, sqrt(3), sqrt(3)/2.
    assert!((s[2][0] - 1.5).abs() < 1e-15);
    assert!((s[2][1] - 3.0f64.sqrt()).abs() < 1e-15);
    assert!((s[2][2] - 3.0f64.sqrt() / 2.0).abs() < 1e-15);
}
