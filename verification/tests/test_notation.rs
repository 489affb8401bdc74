use rustyspans::Bound::{Exclusive, Inclusive, Unbounded};
use rustyspans::Range;

#[test]
fn brackets_follow_inclusivity() {
    assert_eq!("[1,10]", Range::new(Inclusive(1), Inclusive(10)).to_text());
    assert_eq!("(1,10)", Range::new(Exclusive(1), Exclusive(10)).to_text());
    assert_eq!("[1,10)", Range::new(Inclusive(1), Exclusive(10)).to_text());
    assert_eq!("(1,10]", Range::new(Exclusive(1), Inclusive(10)).to_text());
}

#[test]
fn unbounded_sides_show_no_value() {
    assert_eq!("(,10]", Range::new(Unbounded, Inclusive(10)).to_text());
    assert_eq!("(1,)", Range::new(Exclusive(1), Unbounded).to_text());
    assert_eq!("(,)", Range::<u8>::new(Unbounded, Unbounded).to_text());
}

#[test]
fn limits_are_written_as_they_display() {
    assert_eq!("[-3,7)", Range::from(-3..7).to_text());
    assert_eq!("[a,k)", Range::new(Inclusive("a"), Exclusive("k")).to_text());
    assert_eq!("[0.5,1.5]", Range::new(Inclusive(0.5), Inclusive(1.5)).to_text());
}

#[test]
fn the_empty_range_has_its_own_text() {
    assert_eq!("(empty)", Range::Empty::<String>.to_text());
    assert_ne!(Range::Empty::<i32>.to_text(), Range::<i32>::from(..).to_text());
}

#[test]
fn write_with_places_the_given_texts() {
    let range = Range::new(Inclusive(0), Exclusive(0));
    assert_eq!("[low,high)", range.write_with("low", "high"));
    assert_eq!("[,)", range.write_with("", ""));
}

#[test]
fn write_with_leaves_out_the_text_of_an_unbounded_side() {
    assert_eq!("(,high]", Range::new(Unbounded, Inclusive(0)).write_with("low", "high"));
    assert_eq!("(low,)", Range::new(Exclusive(0), Unbounded).write_with("low", "high"));
    assert_eq!("(,)", Range::<i32>::new(Unbounded, Unbounded).write_with("low", "high"));
    assert_eq!("(empty)", Range::Empty::<i32>.write_with("low", "high"));
}

#[test]
fn limit_text_of_each_kind() {
    assert_eq!("12", Inclusive(12).limit_text());
    assert_eq!("12", Exclusive(12).limit_text());
    assert_eq!("", Unbounded::<i32>.limit_text());
}
