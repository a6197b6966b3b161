use rust_basics::generics::{largest, largest_gen, largest_gen_ref, Pair, Point, Point2, Show};

#[test]
fn point_x_returns_first_coordinate() {
    let pt = Point { x: 5, y: 7 };
    assert_eq!(*pt.x(), 5);
}

#[test]
fn mixup_takes_x_of_self_and_y_of_other() {
    let p1 = Point2 { x: 5, y: 7.2 };
    let p2 = Point2 { x: "Hello", y: 'c' };
    let p3 = p1.mixup(p2);
    assert_eq!(p3.x, 5);
    assert_eq!(p3.y, 'c');
}

#[test]
fn show_integer_point() {
    let pt = Point { x: 5, y: 7 };
    assert_eq!(pt.show(), "5, 7");
    let neg = Point { x: -12, y: i32::MIN };
    assert_eq!(neg.show(), "-12, -2147483648");
    assert_eq!(pt.hello(), "hello!");
}

#[test]
fn largest_of_integers() {
    assert_eq!(largest(&vec![1, 7, 5]), 7);
    assert_eq!(largest(&[-3]), -3);
    assert_eq!(largest(&[-3, -9, -1]), -1);
    assert_eq!(largest(&[4, 4, 2]), 4);
}

#[test]
fn largest_gen_of_chars_and_floats() {
    assert_eq!(largest_gen(&vec!['1', '7', '5']), '7');
    assert_eq!(largest_gen(&[2.5f64, -1.0, 3.25]), 3.25);
    assert_eq!(largest_gen(&[10u64]), 10);
}

#[test]
fn largest_gen_ref_points_into_list() {
    let list = vec!['1', '7', '5'];
    let r = largest_gen_ref(&list);
    assert_eq!(*r, '7');
    assert!(std::ptr::eq(r, &list[1]));
    let words = vec![String::from("pear"), String::from("apple"), String::from("zoo")];
    assert_eq!(largest_gen_ref(&words), "zoo");
}

#[test]
fn largest_keeps_first_of_equal_items() {
    let list = vec![3, 9, 9, 1];
    let r = largest_gen_ref(&list);
    assert!(std::ptr::eq(r, &list[1]));
}

#[test]
fn pair_new_and_largest_member() {
    let p = Pair::new(3, 8);
    assert_eq!((p.x, p.y), (3, 8));
    assert_eq!(p.largest_member(), ("y", &8));
    let q = Pair::new(8, 3);
    assert_eq!(q.largest_member(), ("x", &8));
    let tie = Pair::new(4, 4);
    assert_eq!(tie.largest_member().0, "x");
}
