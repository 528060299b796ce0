use sync_primitives::containers::{Container, Stack};
use sync_primitives::generics::{
    apply_operation, combine_vectors, largest, swap, MixedPoint, Option2, Pair, PhantomContainer,
};
use sync_primitives::traffic_light::TrafficLight;

struct Marker;

#[test]
fn stack_push_pop_peek() {
    let mut stack = Stack::new();
    assert!(stack.is_empty());
    stack.push(1);
    stack.push(2);
    stack.push(3);
    assert_eq!(stack.len(), 3);
    assert_eq!(stack.peek(), Some(&3));
    assert_eq!(stack.pop(), Some(3));
    assert_eq!(stack.pop(), Some(2));
    assert_eq!(stack.pop(), Some(1));
    assert_eq!(stack.pop(), None);
}

#[test]
fn container_refuses_beyond_capacity() {
    let mut container = Container::new(2);
    assert!(container.add("a").is_ok());
    assert!(container.add("b").is_ok());
    assert!(container.add("c").is_err());
    assert_eq!(container.remove(), Some("b"));
    assert!(container.add("d").is_ok());
    assert_eq!(container.remove(), Some("d"));
    assert_eq!(container.remove(), Some("a"));
    assert_eq!(container.remove(), None);
}

#[test]
fn mixed_point_mixup() {
    let p1 = MixedPoint::new(5, 10.4);
    let p2 = MixedPoint::new("Hello", 'c');
    let p3 = p1.mixup(p2);
    assert_eq!(p3.x, 5);
    assert_eq!(p3.y, 'c');
}

#[test]
fn option2_unwrap_or() {
    let some_number = Option2::Present(5);
    let none_int: Option2<i32> = Option2::Absent;
    assert_eq!(some_number.unwrap_or(0), 5);
    assert_eq!(none_int.unwrap_or(42), 42);
}

#[test]
fn option2_map_applies_closure() {
    let doubled = Option2::Present(5).map(|x| x * 2);
    assert_eq!(doubled.unwrap_or(0), 10);
    let still_absent: Option2<i32> = Option2::Absent.map(|x: i32| x * 2);
    assert_eq!(still_absent.unwrap_or(7), 7);
}

#[test]
fn stack_peek_cloned_and_duplicate_top() {
    let mut stack = Stack::new();
    assert_eq!(stack.peek_cloned(), None);
    assert_eq!(stack.duplicate_top(), Err("Stack is empty"));
    stack.push(3);
    assert_eq!(stack.peek_cloned(), Some(3));
    assert_eq!(stack.duplicate_top(), Ok(()));
    assert_eq!(stack.len(), 2);
    assert_eq!(stack.pop(), Some(3));
    assert_eq!(stack.pop(), Some(3));
}

#[test]
fn phantom_container_holds_string() {
    let container: PhantomContainer<Marker> = PhantomContainer::new(String::from("payload"));
    assert_eq!(container.get_data(), "payload");
}

#[test]
fn swap_exchanges_values() {
    let mut x = 5;
    let mut y = 10;
    swap(&mut x, &mut y);
    assert_eq!(x, 10);
    assert_eq!(y, 5);
}

#[test]
fn largest_finds_maximum() {
    let numbers = vec![34, 50, 25, 100, 65];
    assert_eq!(largest(&numbers), 100);
    let single = vec![-3];
    assert_eq!(largest(&single), -3);
    let with_ties = vec![7, 7, 1];
    assert_eq!(largest(&with_ties), 7);
}

#[test]
fn combine_vectors_concatenates() {
    let v1 = vec![1, 2, 3];
    let v2 = vec![4, 5];
    assert_eq!(combine_vectors(v1, v2), vec![1, 2, 3, 4, 5]);
}

#[test]
fn apply_operation_uses_closure() {
    assert_eq!(apply_operation(5, 3, |x, y| x + y), 8);
    assert_eq!(apply_operation(5, 3, |x, y| x * y), 15);
}

#[test]
fn pair_larger_component() {
    let p = Pair::new(3i64, 8i64);
    assert_eq!(*p.larger(), 8);
    let q = Pair::new(5i64, 5i64);
    assert_eq!(*q.larger(), 5);
    let r = Pair::new(-1i64, -9i64);
    assert_eq!(*r.larger(), -1);
}

#[test]
fn traffic_light_cycle() {
    let red = TrafficLight::Red;
    assert_eq!(red.time(), 60);
    assert!(!red.can_go());
    let green = red.next();
    assert_eq!(green, TrafficLight::Green);
    assert!(green.can_go());
    assert_eq!(green.time(), 50);
    let yellow = green.next();
    assert_eq!(yellow, TrafficLight::Yellow);
    assert_eq!(yellow.time(), 10);
    assert_eq!(yellow.next(), TrafficLight::Red);
}
