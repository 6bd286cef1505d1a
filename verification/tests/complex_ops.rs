use qgate::complex::{Complex, Scalar};

fn c(re_a: i64, re_b: i64, re_d: i64, im_a: i64, im_b: i64, im_d: i64) -> Complex {
    Complex::new(Scalar::new(re_a, re_b, re_d), Scalar::new(im_a, im_b, im_d))
}

fn to_f64(x: &Complex) -> (f64, f64) {
    let rt2 = 2f64.sqrt();
    (
        (x.re.a as f64 + x.re.b as f64 * rt2) / x.re.d as f64,
        (x.im.a as f64 + x.im.b as f64 * rt2) / x.im.d as f64,
    )
}

#[test]
fn add_commutes() {
    let a = c(3, 1, 2, -5, 0, 1);
    let b = c(-7, 2, 3, 4, 1, 2);
    assert_eq!(a.add(b), b.add(a));
}

#[test]
fn mul_commutes() {
    let a = c(3, 1, 2, -5, 0, 1);
    let b = c(-7, 2, 3, 4, 1, 2);
    assert_eq!(a.mul(b), b.mul(a));
}

#[test]
fn conj_involutive() {
    let a = c(3, 1, 2, -5, 2, 7);
    assert_eq!(a.conj().conj(), a);
}

#[test]
fn neg_involutive() {
    let a = c(3, 1, 2, -5, 2, 7);
    assert_eq!(a.neg().neg(), a);
}

#[test]
fn conj_flips_imaginary_part() {
    let a = c(3, 0, 1, 5, 0, 1);
    let r = a.conj();
    assert_eq!(r.re, Scalar::new(3, 0, 1));
    assert_eq!(r.im, Scalar::new(-5, 0, 1));
}

#[test]
fn mul_matches_complex_product() {
    // (1 + 2i) * (3 + 4i) == -5 + 10i
    let a = c(1, 0, 1, 2, 0, 1);
    let b = c(3, 0, 1, 4, 0, 1);
    let r = a.mul(b);
    let (re, im) = to_f64(&r);
    assert!((re - (-5.0)).abs() < 1e-12);
    assert!((im - 10.0).abs() < 1e-12);
}

#[test]
fn rt2_scalar_squares_to_half() {
    // (sqrt(2)/2)^2 == 1/2
    let s = Scalar::new(0, 1, 2);
    let sq = s.mul(s);
    let v = (sq.a as f64 + sq.b as f64 * 2f64.sqrt()) / sq.d as f64;
    assert!((v - 0.5).abs() < 1e-12);
}

#[test]
fn add_is_exact_on_mixed_denominators() {
    // 1/2 + 1/3 == 5/6
    let a = Scalar::new(1, 0, 2);
    let b = Scalar::new(1, 0, 3);
    let r = a.add(b);
    assert_eq!(r.a * 6, 5 * r.d);
    assert_eq!(r.b, 0);
}
