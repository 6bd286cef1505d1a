use qgate::complex::{Complex, Scalar};
use qgate::double::DoubleGate;
use qgate::single::SingleGate;
use qgate::triple::TripleGate;

type MatF = Vec<Vec<(f64, f64)>>;

fn to_f64(x: &Complex) -> (f64, f64) {
    let rt2 = 2f64.sqrt();
    (
        (x.re.a as f64 + x.re.b as f64 * rt2) / x.re.d as f64,
        (x.im.a as f64 + x.im.b as f64 * rt2) / x.im.d as f64,
    )
}

fn mat_f64(m: &Vec<Vec<Complex>>) -> MatF {
    m.iter().map(|row| row.iter().map(to_f64).collect()).collect()
}

fn mat_mul(a: &MatF, b: &MatF) -> MatF {
    let n = a.len();
    let mut r: MatF = Vec::new();
    for i in 0..n {
        let mut row: Vec<(f64, f64)> = Vec::new();
        for j in 0..n {
            let mut re = 0.0;
            let mut im = 0.0;
            for t in 0..n {
                let (xr, xi) = a[i][t];
                let (yr, yi) = b[t][j];
                re += xr * yr - xi * yi;
                im += xr * yi + xi * yr;
            }
            row.push((re, im));
        }
        r.push(row);
    }
    r
}

fn conj_transpose(a: &MatF) -> MatF {
    let n = a.len();
    let mut r: MatF = Vec::new();
    for i in 0..n {
        let mut row: Vec<(f64, f64)> = Vec::new();
        for j in 0..n {
            let (re, im) = a[j][i];
            row.push((re, -im));
        }
        r.push(row);
    }
    r
}

fn assert_is_identity(m: &MatF, tol: f64) {
    let n = m.len();
    for i in 0..n {
        assert_eq!(m[i].len(), n);
        for j in 0..n {
            let want = if i == j { 1.0 } else { 0.0 };
            let (re, im) = m[i][j];
            assert!((re - want).abs() < tol, "entry ({}, {}) real part is {}", i, j, re);
            assert!(im.abs() < tol, "entry ({}, {}) imaginary part is {}", i, j, im);
        }
    }
}

fn assert_mat_eq(a: &MatF, b: &MatF, tol: f64) {
    let n = a.len();
    assert_eq!(b.len(), n);
    for i in 0..n {
        for j in 0..n {
            assert!((a[i][j].0 - b[i][j].0).abs() < tol);
            assert!((a[i][j].1 - b[i][j].1).abs() < tol);
        }
    }
}

fn one() -> Complex {
    Complex::new(Scalar::new(1, 0, 1), Scalar::new(0, 0, 1))
}

fn zero() -> Complex {
    Complex::new(Scalar::new(0, 0, 1), Scalar::new(0, 0, 1))
}

#[test]
fn identity_is_exactly_identity() {
    let g = SingleGate::id();
    assert_eq!(g.matrix.len(), 2);
    assert_eq!(g.matrix[0], vec![one(), zero()]);
    assert_eq!(g.matrix[1], vec![zero(), one()]);
}

#[test]
fn pauli_x_entries() {
    let g = SingleGate::x();
    assert_eq!(g.matrix[0], vec![zero(), one()]);
    assert_eq!(g.matrix[1], vec![one(), zero()]);
}

#[test]
fn pauli_y_is_unitary_numerically() {
    let m = mat_f64(&SingleGate::y().matrix);
    assert_is_identity(&mat_mul(&m, &conj_transpose(&m)), 1e-9);
}

#[test]
fn hadamard_is_unitary_numerically() {
    let m = mat_f64(&SingleGate::h().matrix);
    assert_is_identity(&mat_mul(&m, &conj_transpose(&m)), 1e-9);
}

#[test]
fn hadamard_squared_is_identity() {
    let m = mat_f64(&SingleGate::h().matrix);
    assert_is_identity(&mat_mul(&m, &m), 1e-9);
}

#[test]
fn sqnot_entries_match_table() {
    let g = SingleGate::sqnot();
    for i in 0..2 {
        let (re0, im0) = to_f64(&g.matrix[i][0]);
        let (re1, im1) = to_f64(&g.matrix[i][1]);
        assert!((re0 - 0.5).abs() < 1e-12 && (im0 - 0.5).abs() < 1e-12);
        assert!((re1 - 0.5).abs() < 1e-12 && (im1 - (-0.5)).abs() < 1e-12);
    }
}

fn phase_of(phi: f64) -> SingleGate {
    // cos and sin land on the exact scalar grid to within 2^-40.
    let scale: i64 = 1 << 40;
    let c = (phi.cos() * scale as f64).round() as i64;
    let s = (phi.sin() * scale as f64).round() as i64;
    SingleGate::phase(Complex::new(Scalar::new(c, 0, scale), Scalar::new(s, 0, scale)))
}

#[test]
fn phase_zero_is_identity() {
    let m = mat_f64(&phase_of(0.0).matrix);
    let id = mat_f64(&SingleGate::id().matrix);
    assert_mat_eq(&m, &id, 1e-9);
}

#[test]
fn phase_pi_is_pauli_z() {
    let m = mat_f64(&phase_of(std::f64::consts::PI).matrix);
    let z = mat_f64(&SingleGate::z().matrix);
    assert_mat_eq(&m, &z, 1e-9);
}

#[test]
fn phase_is_unitary_numerically() {
    let m = mat_f64(&phase_of(0.731).matrix);
    assert_is_identity(&mat_mul(&m, &conj_transpose(&m)), 1e-9);
}

#[test]
fn cnot_rows_swap_last_two_basis_states() {
    let g = DoubleGate::cnot();
    let id4 = vec![
        vec![one(), zero(), zero(), zero()],
        vec![zero(), one(), zero(), zero()],
        vec![zero(), zero(), one(), zero()],
        vec![zero(), zero(), zero(), one()],
    ];
    assert_eq!(g.matrix[0], id4[0]);
    assert_eq!(g.matrix[1], id4[1]);
    assert_eq!(g.matrix[2], id4[3]);
    assert_eq!(g.matrix[3], id4[2]);
}

#[test]
fn cnot_is_unitary_numerically() {
    let m = mat_f64(&DoubleGate::cnot().matrix);
    assert_is_identity(&mat_mul(&m, &conj_transpose(&m)), 1e-9);
}

#[test]
fn swap_exchanges_middle_basis_states() {
    let g = DoubleGate::swap();
    assert_eq!(g.matrix[0], vec![one(), zero(), zero(), zero()]);
    assert_eq!(g.matrix[1], vec![zero(), zero(), one(), zero()]);
    assert_eq!(g.matrix[2], vec![zero(), one(), zero(), zero()]);
    assert_eq!(g.matrix[3], vec![zero(), zero(), zero(), one()]);
}

#[test]
fn sqswap_squared_is_swap() {
    let m = mat_f64(&DoubleGate::sqswap().matrix);
    let swap = mat_f64(&DoubleGate::swap().matrix);
    assert_mat_eq(&mat_mul(&m, &m), &swap, 1e-9);
}

#[test]
fn sqswap_is_unitary_numerically() {
    let m = mat_f64(&DoubleGate::sqswap().matrix);
    assert_is_identity(&mat_mul(&m, &conj_transpose(&m)), 1e-9);
}

#[test]
fn toffoli_applied_twice_is_identity() {
    let m = mat_f64(&TripleGate::ccnot().matrix);
    assert_eq!(m.len(), 8);
    assert_is_identity(&mat_mul(&m, &m), 1e-9);
}

#[test]
fn toffoli_swaps_states_six_and_seven() {
    let g = TripleGate::ccnot();
    for i in 0..8 {
        for j in 0..8 {
            let expect_one = if i == 6 {
                j == 7
            } else if i == 7 {
                j == 6
            } else {
                j == i
            };
            assert_eq!(g.matrix[i][j], if expect_one { one() } else { zero() });
        }
    }
}

#[test]
fn cswap_applied_twice_is_identity() {
    let m = mat_f64(&TripleGate::cswap().matrix);
    assert_is_identity(&mat_mul(&m, &m), 1e-9);
}

#[test]
fn cswap_swaps_states_five_and_six() {
    let g = TripleGate::cswap();
    for i in 0..8 {
        for j in 0..8 {
            let expect_one = if i == 5 {
                j == 6
            } else if i == 6 {
                j == 5
            } else {
                j == i
            };
            assert_eq!(g.matrix[i][j], if expect_one { one() } else { zero() });
        }
    }
}

#[test]
fn swap_times_itself_is_identity_end_to_end() {
    let g = DoubleGate::swap();
    let m = mat_f64(&g.matrix);
    let product = mat_mul(&m, &m);
    assert_is_identity(&product, 1e-9);
}
