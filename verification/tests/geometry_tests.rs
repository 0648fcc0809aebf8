use prime_number_game::geometry::{Point, SimplePoint};

#[test]
fn test_from_into() {
    let p1 = Point::new(3, -5);
    let p2 = SimplePoint(7, 7);
    // value of p2 is moved in the next line
    // we have derived Clone, Copy so that value can be copied
    let p3 = Point::from(p2);
    let line1 = p1.line(&p3);
    let line2 = p1.line(&p2.into());
    assert_eq!(line1, line2);
}

// the worked example: the line through (3, -5) and (7, 7)
#[test]
fn test_line_equation() {
    let p1 = Point::new(3, -5);
    let p2 = Point::new(7, 7);
    let line = p1.line(&p2);
    assert_eq!("12x + 4y + 96 = 0".to_string(), line);
}

// two equal points span no line
#[test]
fn test_line_same_point() {
    let p1 = Point::new(3, -5);
    let p2 = Point::new(3, -5);
    assert_eq!("".to_string(), p1.line(&p2));
}

// a vertical segment: no y term in the equation
#[test]
fn test_line_vertical() {
    let p1 = Point::new(2, 0);
    let p2 = Point::new(2, 5);
    let line = p1.line(&p2);
    assert_eq!("5x + 25 = 0".to_string(), line);
}
