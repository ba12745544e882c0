use std::cmp::Ordering;

use funcos::colour::{Colour, BLACK, BLUE, CYAN, GREEN, MAGENTA, RED, WHITE, YELLOW};
use funcos::gdt::{double_fault_stack_top, DOUBLE_FAULT_STACK_SIZE};
use funcos::human_units::{BinaryPrefixes, HumanBytes};
use funcos::linalg::rect::Rect;
use funcos::linalg::vec::Vec2;

#[test]
fn rect_width_and_height_are_exact() {
    let r = Rect::new_unchecked(Vec2::new(3usize, 5usize), Vec2::new(10usize, 20usize));
    assert_eq!(r.width(), 7);
    assert_eq!(r.height(), 15);
    assert_eq!(r.min(), Vec2::new(3, 5));
    assert_eq!(r.max(), Vec2::new(10, 20));
}

#[test]
fn rect_extremes_do_not_overflow() {
    let r = Rect::new_unchecked(Vec2::new(0u8, 0u8), Vec2::new(255u8, 255u8));
    assert_eq!(r.width(), 255);
    assert_eq!(r.height(), 255);
    let big = Rect::new_unchecked(Vec2::new(1usize, usize::MAX), Vec2::new(usize::MAX, usize::MAX));
    assert_eq!(big.width(), usize::MAX - 1);
    assert_eq!(big.height(), 0);
}

#[test]
fn rect_from_origin() {
    let r = Rect::new_zero_to_max(Vec2::new(64u32, 32u32));
    assert_eq!(r.min(), Vec2::new(0, 0));
    assert_eq!(r.width(), 64);
    assert_eq!(r.height(), 32);
}

#[test]
fn signed_rect_width() {
    let r = Rect::new_unchecked(Vec2::new(-5i32, -7i32), Vec2::new(5i32, 0i32));
    assert_eq!(r.width(), 10);
    assert_eq!(r.height(), 7);
}

#[test]
fn unit_vectors() {
    assert_eq!(Vec2::<usize>::zero(), Vec2::new(0, 0));
    assert_eq!(Vec2::<u16>::one(), Vec2::new(1, 1));
    assert_eq!(Vec2::<i64>::unit_x(), Vec2::new(1, 0));
    assert_eq!(Vec2::<u8>::unit_y(), Vec2::new(0, 1));
}

#[test]
fn colour_packing() {
    let c = Colour::from_rgb(0x12, 0x34, 0x56);
    assert_eq!(c.value(), 0xff12_3456);
    assert_eq!(c.to_be_bytes(), [0xff, 0x12, 0x34, 0x56]);
    assert_eq!(Colour::new(0xdead_beef).value(), 0xdead_beef);
}

#[test]
fn named_colours() {
    assert_eq!(Colour::from_rgb(0xff, 0xff, 0xff).value(), WHITE);
    assert_eq!(Colour::from_rgb(0xff, 0, 0).value(), RED);
    assert_eq!(Colour::from_rgb(0, 0xff, 0).value(), GREEN);
    assert_eq!(Colour::from_rgb(0, 0, 0xff).value(), BLUE);
    assert_eq!(Colour::from_rgb(0, 0xff, 0xff).value(), CYAN);
    assert_eq!(Colour::from_rgb(0xff, 0, 0xff).value(), MAGENTA);
    assert_eq!(Colour::from_rgb(0xff, 0xff, 0).value(), YELLOW);
    assert_eq!(Colour::from_rgb(0, 0, 0).value(), BLACK);
}

#[test]
fn double_fault_stack_top_is_past_the_stack() {
    assert_eq!(DOUBLE_FAULT_STACK_SIZE, 20480);
    assert_eq!(double_fault_stack_top(0x1000), Some(0x1000 + 20480));
    assert_eq!(double_fault_stack_top(u64::MAX - 100), None);
    assert_eq!(double_fault_stack_top(u64::MAX - 20480), Some(u64::MAX));
}

fn text(v: Vec<u8>) -> String {
    String::from_utf8(v).unwrap()
}

#[test]
fn binary_prefixes() {
    assert_eq!(text(BinaryPrefixes(0usize).display("B")), "0 B");
    assert_eq!(text(BinaryPrefixes(10239usize).display("B")), "10239 B");
    assert_eq!(text(BinaryPrefixes(10240usize).display("B")), "10 KiB");
    assert_eq!(text(BinaryPrefixes(20480usize).display("B")), "20 KiB");
    assert_eq!(text(BinaryPrefixes((10usize << 20) - 1).display("B")), "10239 KiB");
    assert_eq!(text(BinaryPrefixes(10usize << 20).display("")), "10 Mi");
    assert_eq!(text(BinaryPrefixes(10usize << 30).display("B/s")), "10 GiB/s");
    assert_eq!(text(BinaryPrefixes(5000usize << 30).display("B")), "5000 GiB");
}

#[test]
fn human_bytes() {
    assert_eq!(text(HumanBytes(100 * 1024).to_ascii()), "100 KiB");
    assert_eq!(text(HumanBytes(7).to_ascii()), "7 B");
}

#[test]
fn vec2_componentwise_order() {
    let a = Vec2::new(1usize, 2usize);
    assert_eq!(a.partial_cmp(&Vec2::new(3, 4)), Some(Ordering::Less));
    assert_eq!(a.partial_cmp(&Vec2::new(1, 2)), Some(Ordering::Equal));
    assert_eq!(a.partial_cmp(&Vec2::new(0, 0)), Some(Ordering::Greater));
    assert_eq!(a.partial_cmp(&Vec2::new(1, 3)), None);
    assert_eq!(a.partial_cmp(&Vec2::new(0, 5)), None);
    assert!(a < Vec2::new(2, 3));
    assert!(!(a < Vec2::new(2, 2)));
    assert!(a <= Vec2::new(1, 2));
}
