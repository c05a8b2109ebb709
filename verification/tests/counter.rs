use bounded_counter::Max;
use bounded_counter::Min;
use bounded_counter::SubComponent;
use bounded_counter::WrappingOps;

#[test]
fn sub_component_members_work() {
    let mut sub_component = SubComponent::new(0_u8);

    sub_component.set(10);
    (0..10).for_each(|_| sub_component.increment());
    (0..8).for_each(|_| sub_component.decrement());

    assert_eq!(sub_component.get(), 12);
}

#[test]
fn sub_component_can_underflow() {
    let mut sub_component = SubComponent::new(u8::MIN);
    sub_component.decrement();

    assert_eq!(sub_component.get(), u8::MAX)
}

#[test]
fn sub_component_can_overflow() {
    let mut sub_component = SubComponent::new(u8::MAX);
    sub_component.increment();

    assert_eq!(sub_component.get(), u8::MIN)
}

#[test]
fn new_then_get_returns_initial_value() {
    assert_eq!(SubComponent::new(42_u8).get(), 42);
    assert_eq!(SubComponent::new(40_000_u16).get(), 40_000);
    assert_eq!(SubComponent::new(7_usize).get(), 7);
    assert_eq!(SubComponent::new(u8::MAX).get(), u8::MAX);
    assert_eq!(SubComponent::new(usize::MAX).get(), usize::MAX);
}

#[test]
fn set_then_get_returns_value() {
    let mut counter = SubComponent::new(0_u16);
    counter.set(65_535);
    assert_eq!(counter.get(), 65_535);
    counter.set(0);
    assert_eq!(counter.get(), 0);

    let mut wide = SubComponent::new(usize::MAX);
    wide.set(3);
    assert_eq!(wide.get(), 3);
}

#[test]
fn set_twice_equals_set_once() {
    let mut once = SubComponent::new(9_u8);
    let mut twice = SubComponent::new(9_u8);
    once.set(200);
    twice.set(200);
    twice.set(200);
    assert_eq!(once.get(), twice.get());
}

#[test]
fn increment_without_wraparound_adds_one() {
    let mut counter = SubComponent::new(5_u16);
    counter.increment();
    assert_eq!(counter.get(), 6);
}

#[test]
fn increment_wraps_at_max_for_each_width() {
    let mut narrow = SubComponent::new(u16::MAX);
    narrow.increment();
    assert_eq!(narrow.get(), u16::MIN);

    let mut wide = SubComponent::new(usize::MAX);
    wide.increment();
    assert_eq!(wide.get(), usize::MIN);
}

#[test]
fn decrement_wraps_at_min_for_each_width() {
    let mut narrow = SubComponent::new(u16::MIN);
    narrow.decrement();
    assert_eq!(narrow.get(), u16::MAX);

    let mut wide = SubComponent::new(usize::MIN);
    wide.decrement();
    assert_eq!(wide.get(), usize::MAX);
}

#[test]
fn reset_yields_min_regardless_of_prior_state() {
    let mut counter = SubComponent::new(200_u8);
    counter.reset();
    assert_eq!(counter.get(), u8::MIN);

    counter.set(u8::MAX);
    counter.increment();
    counter.reset();
    assert_eq!(counter.get(), u8::MIN);

    let mut wide = SubComponent::new(usize::MAX);
    wide.reset();
    assert_eq!(wide.get(), usize::MIN);

    let mut already_least = SubComponent::new(0_u16);
    already_least.reset();
    assert_eq!(already_least.get(), 0);
}

#[test]
fn wrapping_add_reduces_modulo_range_width() {
    let mut counter = SubComponent::new(200_u8);
    counter.wrapping_add(100);
    assert_eq!(counter.get(), 44);

    let mut narrow = SubComponent::new(65_530_u16);
    narrow.wrapping_add(10);
    assert_eq!(narrow.get(), 4);

    let mut wide = SubComponent::new(usize::MAX);
    wide.wrapping_add(2);
    assert_eq!(wide.get(), 1);

    let mut plain = SubComponent::new(10_u8);
    plain.wrapping_add(20);
    assert_eq!(plain.get(), 30);
}

#[test]
fn wrapping_sub_reduces_modulo_range_width() {
    let mut counter = SubComponent::new(10_u8);
    counter.wrapping_sub(20);
    assert_eq!(counter.get(), 246);

    let mut narrow = SubComponent::new(5_u16);
    narrow.wrapping_sub(10);
    assert_eq!(narrow.get(), 65_531);

    let mut wide = SubComponent::new(3_usize);
    wide.wrapping_sub(5);
    assert_eq!(wide.get(), usize::MAX - 1);

    let mut plain = SubComponent::new(30_u8);
    plain.wrapping_sub(20);
    assert_eq!(plain.get(), 10);
}

#[test]
fn min_and_max_capabilities_give_the_type_bounds() {
    assert_eq!(<u8 as Min>::min(), u8::MIN);
    assert_eq!(<u8 as Max>::max(), u8::MAX);
    assert_eq!(<u16 as Min>::min(), u16::MIN);
    assert_eq!(<u16 as Max>::max(), u16::MAX);
    assert_eq!(<usize as Min>::min(), usize::MIN);
    assert_eq!(<usize as Max>::max(), usize::MAX);
}

#[test]
fn one_capability_gives_the_unit() {
    assert_eq!(<u8 as WrappingOps>::one(), 1);
    assert_eq!(<u16 as WrappingOps>::one(), 1);
    assert_eq!(<usize as WrappingOps>::one(), 1);
}
