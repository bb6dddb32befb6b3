use curv_kzen::elliptic::curves::traits::ECPoint;
use curv_kzen::elliptic::curves::traits::ECScalar;
use curv_kzen::BigInt;
use proactive_refresh::bls::FE1;
use proactive_refresh::bls::FE2;
use proactive_refresh::bls::GE1;
use proactive_refresh::bls::GE2;
use proactive_refresh::lagrange::lagrange_coeff_f0;
use proactive_refresh::lagrange::lagrange_interpolate_f0;
use proactive_refresh::lagrange::Combinable;
use proactive_refresh::polynomial::evaluate;
use proactive_refresh::polynomial::sample_polynomial;

fn scalar(n: u64) -> FE2 {
    ECScalar::from(&BigInt::from(n))
}

fn minus(n: u64) -> FE2 {
    scalar(0).sub(&scalar(n).get_element())
}

fn g1(n: u64) -> GE1 {
    let k: FE1 = ECScalar::from(&BigInt::from(n));
    GE1::generator() * k
}

fn g2(n: u64) -> GE2 {
    GE2::generator() * scalar(n)
}

#[test]
fn coefficient_of_a_single_sample_is_one() {
    let points = vec![(9usize, scalar(4))];
    assert_eq!(lagrange_coeff_f0(&points, 0), scalar(1));
}

#[test]
fn coefficients_of_two_samples() {
    // nodes 1 and 2: 2 / (2 - 1) = 2 and 1 / (1 - 2) = -1
    let points = vec![(1usize, scalar(0)), (2usize, scalar(0))];
    assert_eq!(lagrange_coeff_f0(&points, 0), scalar(2));
    assert_eq!(lagrange_coeff_f0(&points, 1), minus(1));
}

#[test]
fn coefficients_of_three_samples() {
    // nodes 1, 2, 3: the coefficients are 3, -3 and 1
    let points = vec![(1usize, g2(1)), (2usize, g2(1)), (3usize, g2(1))];
    assert_eq!(lagrange_coeff_f0(&points, 0), scalar(3));
    assert_eq!(lagrange_coeff_f0(&points, 1), minus(3));
    assert_eq!(lagrange_coeff_f0(&points, 2), scalar(1));
}

#[test]
fn coefficient_needs_a_true_inverse() {
    // nodes 1 and 4: 4 / 3 and 1 / -3; times three they are 4 and -1
    let points = vec![(1usize, scalar(0)), (4usize, scalar(0))];
    assert_eq!(lagrange_coeff_f0(&points, 0) * scalar(3), scalar(4));
    assert_eq!(lagrange_coeff_f0(&points, 1) * scalar(3), minus(1));
}

#[test]
fn coefficients_sum_to_one() {
    let points = vec![(1usize, scalar(0)), (4usize, scalar(0)), (5usize, scalar(0)), (11usize, scalar(0))];
    let mut sum = scalar(0);
    for j in 0..points.len() {
        sum = sum + lagrange_coeff_f0(&points, j);
    }
    assert_eq!(sum, scalar(1));
}

#[test]
fn coefficient_with_a_large_index() {
    // nodes 2^40 and 2^40 + 1 differ, though their low 32 bits are 0 and 1
    let big: usize = 1 << 40;
    let points = vec![(big, scalar(0)), (big + 1, scalar(0))];
    let first = lagrange_coeff_f0(&points, 0);
    let second = lagrange_coeff_f0(&points, 1);
    assert_eq!(first, scalar((1 << 40) + 1));
    assert_eq!(first + second, scalar(1));
}

#[test]
fn interpolation_of_no_samples_is_zero() {
    let scalars: Vec<(usize, FE2)> = Vec::new();
    assert_eq!(lagrange_interpolate_f0(&scalars), scalar(0));
    let points: Vec<(usize, GE2)> = Vec::new();
    assert_eq!(lagrange_interpolate_f0(&points), g2(0));
    let points: Vec<(usize, GE1)> = Vec::new();
    assert_eq!(lagrange_interpolate_f0(&points), g1(0));
}

#[test]
fn interpolation_of_one_sample_is_its_value() {
    let points = vec![(3usize, scalar(77))];
    assert_eq!(lagrange_interpolate_f0(&points), scalar(77));
}

#[test]
fn interpolation_of_a_constant_is_the_constant() {
    let points = vec![(2usize, scalar(9)), (5usize, scalar(9)), (7usize, scalar(9))];
    assert_eq!(lagrange_interpolate_f0(&points), scalar(9));
}

#[test]
fn interpolation_recovers_the_constant_term_of_a_line() {
    // f(x) = 7 + 3x
    let points = vec![(1usize, scalar(10)), (2usize, scalar(13))];
    assert_eq!(lagrange_interpolate_f0(&points), scalar(7));
}

#[test]
fn interpolation_recovers_the_constant_term_of_a_parabola() {
    // f(x) = 5 + 2x + x^2
    let points = vec![(1usize, scalar(8)), (2usize, scalar(13)), (3usize, scalar(20))];
    assert_eq!(lagrange_interpolate_f0(&points), scalar(5));
    let others = vec![(6usize, scalar(53)), (2usize, scalar(13)), (4usize, scalar(29))];
    assert_eq!(lagrange_interpolate_f0(&others), scalar(5));
}

#[test]
fn interpolation_with_more_samples_than_coefficients() {
    // f(x) = 7 + 3x through four samples
    let points = vec![
        (1usize, scalar(10)),
        (2usize, scalar(13)),
        (5usize, scalar(22)),
        (9usize, scalar(34)),
    ];
    assert_eq!(lagrange_interpolate_f0(&points), scalar(7));
}

#[test]
fn interpolation_with_too_few_samples_gives_another_value() {
    // f(x) = 5 + 2x + x^2 through two samples: the line through them meets zero at 3
    let points = vec![(1usize, scalar(8)), (2usize, scalar(13))];
    assert_eq!(lagrange_interpolate_f0(&points), scalar(3));
}

#[test]
fn interpolation_over_points_of_g2() {
    // f(x) = 7 + 3x in the exponent
    let points = vec![(1usize, g2(10)), (2usize, g2(13))];
    assert_eq!(lagrange_interpolate_f0(&points), g2(7));
    let others = vec![(4usize, g2(19)), (3usize, g2(16))];
    assert_eq!(lagrange_interpolate_f0(&others), g2(7));
}

#[test]
fn interpolation_over_points_of_g1() {
    // f(x) = 5 + 2x + x^2 in the exponent
    let points = vec![(1usize, g1(8)), (2usize, g1(13)), (3usize, g1(20))];
    assert_eq!(lagrange_interpolate_f0(&points), g1(5));
}

#[test]
fn combinable_scalars() {
    assert_eq!(<FE2 as Combinable>::zero(), scalar(0));
    assert_eq!(scalar(5).plus(&scalar(6)), scalar(11));
    assert_eq!(scalar(5).scale(&scalar(6)), scalar(30));
    assert_eq!(minus(1).plus(&scalar(1)), scalar(0));
}

#[test]
fn combinable_points() {
    assert_eq!(<GE2 as Combinable>::zero(), g2(0));
    assert_eq!(g2(5).plus(&g2(6)), g2(11));
    assert_eq!(g2(5).scale(&scalar(6)), g2(30));
    assert_eq!(<GE1 as Combinable>::zero(), g1(0));
    assert_eq!(g1(5).plus(&g1(6)), g1(11));
    assert_eq!(g1(5).scale(&scalar(6)), g1(30));
    assert_eq!(g1(5).scale(&minus(1)).plus(&g1(5)), g1(0));
}

#[test]
fn evaluate_a_polynomial() {
    // f(x) = 5 + 2x + x^2
    let coeffs = vec![scalar(5), scalar(2), scalar(1)];
    assert_eq!(evaluate(&coeffs, &scalar(0)), scalar(5));
    assert_eq!(evaluate(&coeffs, &scalar(1)), scalar(8));
    assert_eq!(evaluate(&coeffs, &scalar(3)), scalar(20));
    assert_eq!(evaluate(&coeffs, &minus(1)), scalar(4));
}

#[test]
fn evaluate_the_empty_polynomial() {
    let coeffs: Vec<FE2> = Vec::new();
    assert_eq!(evaluate(&coeffs, &scalar(12)), scalar(0));
}

#[test]
fn sampled_polynomial_keeps_its_constant_term() {
    let coeffs = sample_polynomial(scalar(42), 4);
    assert_eq!(coeffs.len(), 4);
    assert_eq!(coeffs[0], scalar(42));
    assert_eq!(evaluate(&coeffs, &scalar(0)), scalar(42));
    let alone = sample_polynomial(scalar(0), 1);
    assert_eq!(alone.len(), 1);
    assert_eq!(alone[0], scalar(0));
}

#[test]
fn sampled_polynomials_differ() {
    let first = sample_polynomial(scalar(0), 3);
    let second = sample_polynomial(scalar(0), 3);
    assert!(first[1] != second[1] || first[2] != second[2]);
}

#[test]
fn interpolation_recovers_a_sampled_secret() {
    let coeffs = sample_polynomial(scalar(123456789), 3);
    let mut points: Vec<(usize, FE2)> = Vec::new();
    for index in [2usize, 7, 3, 10] {
        points.push((index, evaluate(&coeffs, &scalar(index as u64))));
    }
    assert_eq!(lagrange_interpolate_f0(&points), scalar(123456789));
}
