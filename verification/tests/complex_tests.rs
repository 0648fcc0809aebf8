use prime_number_game::complex::Complex;

// test Complex number display using to_string
// both real and imaginary parts are positive
#[test]
fn test_display_positive_num() {
    let num = Complex::new(2, 3);
    let s = num.to_string();
    assert_eq!("2 + 3i".to_string(), s);
}

// real part is negative but imaginary part is positive
#[test]
fn test_display_negative_real() {
    let num = Complex::new(-2, 3);
    let s = num.to_string();
    assert_eq!("-2 + 3i".to_string(), s);
}

// real part is positive but imaginary part is negative
#[test]
fn test_display_negative_imag() {
    let num = Complex::new(2, -3);
    let s = num.to_string();
    assert_eq!("2 - 3i".to_string(), s);
}

// both real and imaginary parts are negative
#[test]
fn test_display_negative_num() {
    let num = Complex::new(-2, -3);
    let s = num.to_string();
    assert_eq!("-2 - 3i".to_string(), s);
}

// real part is non zero and imaginary part is zero
#[test]
fn test_display_imag_zero() {
    let num = Complex::new(2, 0);
    let s = num.to_string();
    assert_eq!("2".to_string(), s);
}

// real part is zero and imaginary part is non zero
#[test]
fn test_display_real_zero() {
    let num = Complex::new(0, 3);
    let s = num.to_string();
    assert_eq!("3i".to_string(), s);
}

// real part is zero and imaginary part is non zero and negative
#[test]
fn test_display_real_zero_neg() {
    let num = Complex::new(0, -3);
    let s = num.to_string();
    assert_eq!("-3i".to_string(), s);
}

// both real part and imaginary parts are zero
#[test]
fn test_display_zero() {
    let num = Complex::new(0, 0);
    let s = num.to_string();
    assert_eq!("0".to_string(), s);
}

// add two positive numbers
#[test]
fn test_add_positives() {
    let lhs = Complex::new(2, 5);
    let rhs = Complex::new(4, 7);
    let expected = Complex::new(6, 12);
    let result = lhs + rhs;
    assert_eq!(expected, result);
}

// add two lhs = a+bi, rhs = x-yi
#[test]
fn test_add_pos_neg1() {
    let lhs = Complex::new(2, 5);
    let rhs = Complex::new(4, -7);
    let expected = Complex::new(6, -2);
    let result = lhs + rhs;
    assert_eq!(expected, result);
}

// add two lhs = a+bi, rhs = -x+yi
#[test]
fn test_add_pos_neg2() {
    let lhs = Complex::new(2, 5);
    let rhs = Complex::new(-4, 7);
    let expected = Complex::new(-2, 12);
    let result = lhs + rhs;
    assert_eq!(expected, result);
}

// add two lhs = a+bi, rhs = -x-yi
#[test]
fn test_add_pos_neg3() {
    let lhs = Complex::new(2, 5);
    let rhs = Complex::new(-4, -7);
    let expected = Complex::new(-2, -2);
    let result = lhs + rhs;
    assert_eq!(expected, result);
}

// add two lhs = a-bi, rhs = x+yi
#[test]
fn test_add_neg_pos1() {
    let lhs = Complex::new(2, -5);
    let rhs = Complex::new(4, 7);
    let expected = Complex::new(6, 2);
    let result = lhs + rhs;
    assert_eq!(expected, result);
}

// add two lhs = -a+bi, rhs = x+yi
#[test]
fn test_add_neg_pos2() {
    let lhs = Complex::new(-2, 5);
    let rhs = Complex::new(4, 7);
    let expected = Complex::new(2, 12);
    let result = lhs + rhs;
    assert_eq!(expected, result);
}

// add two lhs = -a-bi, rhs = x+yi
#[test]
fn test_add_neg_pos3() {
    let lhs = Complex::new(-2, -5);
    let rhs = Complex::new(4, 7);
    let expected = Complex::new(2, 2);
    let result = lhs + rhs;
    assert_eq!(expected, result);
}

// add two lhs = a-bi, rhs = x-yi
#[test]
fn test_add_neg_neg1() {
    let lhs = Complex::new(2, -5);
    let rhs = Complex::new(4, -7);
    let expected = Complex::new(6, -12);
    let result = lhs + rhs;
    assert_eq!(expected, result);
}

// add two lhs = -a-bi, rhs = -x-yi
#[test]
fn test_add_neg_neg2() {
    let lhs = Complex::new(-2, -5);
    let rhs = Complex::new(-4, -7);
    let expected = Complex::new(-6, -12);
    let result = lhs + rhs;
    assert_eq!(expected, result);
}

// add conjugate
#[test]
fn test_add_conjugate() {
    let n = Complex::new(-2, -5);
    let expected = Complex::new(n.real * 2, 0);
    let result = n.conjugate() + n;
    assert_eq!(expected, result);
}

// sub same number
#[test]
fn test_sub_same() {
    let n = Complex::new(-2, -5);
    let n1 = Complex::new(n.real, n.imag);
    let expected = Complex::new(n.real * 2, n.imag * 2);
    let result = n1 + n;
    assert_eq!(expected, result);
}

// sub conjugate
#[test]
fn test_sub_conjugate() {
    let n = Complex::new(-2, -5);
    let c = n.conjugate();
    let expected = Complex::new(0, n.imag * 2);
    let result = n - c;
    assert_eq!(expected, result);
}

// sub (a+bi) - (x+yi)
#[test]
fn test_sub_pos1() {
    let lhs = Complex::new(2, 5);
    let rhs = Complex::new(4, 7);
    let expected = Complex::new(-2, -2);
    let result = lhs - rhs;
    assert_eq!(expected, result);
}

// sub (a+bi) - (x+bi)
#[test]
fn test_sub_same_imag() {
    let lhs = Complex::new(2, 5);
    let rhs = Complex::new(4, 5);
    let expected = Complex::new(-2, 0);
    let result = lhs - rhs;
    assert_eq!(expected, result);
}

// sub (a+bi) - (x+bi)
#[test]
fn test_sub_same_real() {
    let lhs = Complex::new(2, 5);
    let rhs = Complex::new(2, 7);
    let expected = Complex::new(0, -2);
    let result = lhs - rhs;
    assert_eq!(expected, result);
}

// mul (a+bi) * (x+yi)
#[test]
fn test_mul_pos() {
    let lhs = Complex::new(2, 5);
    let rhs = Complex::new(4, 7);
    let expected = Complex::new(-27, 34);
    let result = lhs * rhs;
    assert_eq!(expected, result);
}

// mul (a+bi) * 0
#[test]
fn test_mul_zero() {
    let lhs = Complex::new(2, 5);
    let rhs = Complex::new(0, 0);
    let expected = Complex::new(0, 0);
    let result = lhs * rhs;
    assert_eq!(expected, result);
}

// multiply with conjugate
#[test]
fn test_mul_conjugate() {
    let n = Complex::new(2, 5);
    let expected = Complex::new(n.real * n.real + n.imag * n.imag, 0);
    let result = n.conjugate() * n;
    assert_eq!(expected, result);
}

// divide by same
#[test]
fn test_div_same() {
    let lhs = Complex::new(2, 5);
    let rhs = Complex::new(lhs.real, lhs.imag);
    let expected = Complex::new(1, 0);
    let result = lhs / rhs;
    assert_eq!(expected, result);
}

// divide by imag zero
#[test]
fn test_div_pos() {
    let lhs = Complex::new(20, 25);
    let rhs = Complex::new(5, 0);
    let expected = Complex::new(4, 5);
    let result = lhs / rhs;
    assert_eq!(expected, result);
}

// divide by real zero
#[test]
fn test_div_real_zero() {
    let lhs = Complex::new(20, 25);
    let rhs = Complex::new(0, 5);
    let expected = Complex::new(5, -4);
    let result = lhs / rhs;
    assert_eq!(expected, result);
}

// divide by zero
#[test]
#[should_panic]
fn test_div_zero() {
    let lhs = Complex::new(2, 5);
    let rhs = Complex::new(0, 0);
    let _ = lhs / rhs;
}
