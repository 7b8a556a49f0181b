use ref_thread_local::{RefManager, RefThreadLocal};
use std::cell::{Cell, RefCell};
use std::collections::HashMap;

fn times_two(n: u32) -> u32 {
    n * 2
}

/// More documentation!
#[allow(unused_variables)]
#[allow(non_camel_case_types)]
#[derive(Copy, Clone, Debug)]
pub struct STRING {
    _private_field: (),
}

#[allow(non_upper_case_globals)]
const STRING: STRING = STRING { _private_field: () };

#[test]
fn s3() {
    let s1 = RefCell::new(RefManager::new(|| "a"));
    let s2 = RefCell::new(RefManager::new(|| "b"));
    let mut s3 = RefManager::new(|| {
        let mut s1 = s1.borrow_mut();
        let mut s2 = s2.borrow_mut();
        let a = s1.borrow();
        let b = s2.borrow();
        let joined = [*a.deref(s1.data_ref()), *b.deref(s2.data_ref())].join("");
        a.release(s1.data_mut());
        b.release(s2.data_mut());
        joined
    });
    let r = s3.borrow();
    assert_eq!(r.deref(s3.data_ref()), "ab");
    r.release(s3.data_mut());
}

#[test]
fn test_basic() {
    let mut string = RefManager::new(|| "hello".to_string());
    let mut number = RefManager::new(|| times_two(3));
    let mut hashmap = RefManager::new(|| {
        let mut m = HashMap::new();
        m.insert(0u32, "abc");
        m.insert(1u32, "def");
        m.insert(2u32, "ghi");
        m
    });
    let mut array_boxes = RefManager::new(|| [Box::new(1u32), Box::new(2), Box::new(3)]);
    let mut all_bits = RefManager::new(|| (-1i32) as u32);

    let r = string.borrow();
    assert_eq!(r.deref(string.data_ref()).as_str(), "hello");
    r.release(string.data_mut());
    let r = number.borrow();
    assert_eq!(*r.deref(number.data_ref()), 6);
    r.release(number.data_mut());
    let r = hashmap.borrow();
    assert!(r.deref(hashmap.data_ref()).get(&1).is_some());
    assert!(r.deref(hashmap.data_ref()).get(&3).is_none());
    r.release(hashmap.data_mut());
    let r = array_boxes.borrow();
    assert_eq!(r.deref(array_boxes.data_ref()), &[Box::new(1), Box::new(2), Box::new(3)]);
    r.release(array_boxes.data_mut());
    let r = all_bits.borrow();
    assert_eq!(*r.deref(all_bits.data_ref()), std::u32::MAX);
    r.release(all_bits.data_mut());
}

#[test]
fn test_borrow_after_borrow_mut() {
    let mut number = RefManager::new(|| times_two(3));
    let _a = number.try_borrow_mut();
    let _b = number.try_borrow();
    assert!(_a.is_ok(), "failed");
    assert!(_b.is_err(), "failed");
}

#[test]
fn test_borrow_mut_after_borrow() {
    let mut number = RefManager::new(|| times_two(3));
    let _a = number.try_borrow();
    let _b = number.try_borrow_mut();
    assert!(_a.is_ok(), "failed");
    assert!(_b.is_err(), "failed");
}

#[test]
fn test_repeat() {
    let mut number = RefManager::new(|| times_two(3));
    for _ in 0..3 {
        let r = number.borrow();
        assert_eq!(*r.deref(number.data_ref()), 6);
        r.release(number.data_mut());
    }
}

#[test]
fn test_meta() {
    // a cell's declaration type is Copy, Clone and Debug
    let copy_of_string = STRING;
    // just to make sure it was copied
    assert!(!std::ptr::eq(&STRING, &copy_of_string));
    assert_eq!(
        format!("{:?}", STRING),
        "STRING { _private_field: () }".to_string()
    );
}

#[test]
fn sub_test() {
    let mut foo = RefManager::new(|| Box::new(0u32));
    let mut bar = RefManager::new(|| Box::new(98u32));
    let mut baz = RefManager::new(|| Box::new(42u32));
    let mut bag = RefManager::new(|| Box::new(37u32));
    let r = foo.borrow();
    assert_eq!(**r.deref(foo.data_ref()), 0);
    r.release(foo.data_mut());
    let r = bar.borrow();
    assert_eq!(**r.deref(bar.data_ref()), 98);
    r.release(bar.data_mut());
    let r = baz.borrow();
    assert_eq!(**r.deref(baz.data_ref()), 42);
    r.release(baz.data_mut());
    let r = bag.borrow();
    assert_eq!(**r.deref(bag.data_ref()), 37);
    r.release(bag.data_mut());
}

#[test]
fn test_visibility() {
    let mut foo = RefManager::new(|| Box::new(0u32));
    let mut bag = RefManager::new(|| Box::new(37u32));
    let r = foo.borrow();
    assert_eq!(*r.deref(foo.data_ref()), Box::new(0));
    r.release(foo.data_mut());
    let r = bag.borrow();
    assert_eq!(*r.deref(bag.data_ref()), Box::new(37));
    r.release(bag.data_mut());
}

#[derive(Copy, Clone, Debug, PartialEq)]
struct X;

#[test]
fn item_name_shadowing() {
    let mut item_name_test = RefManager::new(|| X);
    let r = item_name_test.borrow();
    assert_eq!(*r.deref(item_name_test.data_ref()), X);
    r.release(item_name_test.data_mut());
}

#[test]
fn pre_init() {
    let pre_init_flag = Cell::new(false);
    let mut pre_init = RefManager::new(|| {
        pre_init_flag.set(true);
    });
    assert_eq!(pre_init_flag.get(), false);
    let _ = pre_init.initialize();
    assert_eq!(pre_init_flag.get(), true);
}

fn takes_byte(_: &u8) {}

#[test]
fn lifetime_name() {
    let mut lifetime_name = RefManager::new(|| takes_byte as for<'a> fn(&'a u8));
    let r = lifetime_name.borrow();
    r.release(lifetime_name.data_mut());
}

#[test]
fn ref_map() {
    let mut arr = RefManager::new(|| (39u32, b'b'));
    let r = arr.borrow();
    let s = &r.deref(arr.data_ref()).0;
    assert_eq!(*s, 39);
    r.release(arr.data_mut());
    assert_eq!(arr.data_ref().peek().borrow_count, 0);
}

#[test]
fn ref_map_split() {
    let mut arr = RefManager::new(|| vec![1u32, 2, 3, 4, 5, 6, 7, 8]);
    let r = arr.borrow();
    let (a, b) = r.deref(arr.data_ref()).split_at(4);
    assert_eq!(a, &[1, 2, 3, 4]);
    assert_eq!(b, &[5, 6, 7, 8]);
    r.release(arr.data_mut());
}

#[test]
fn refmut_map() {
    let mut arr = RefManager::new(|| (39u32, b'b'));
    {
        let r = arr.borrow_mut();
        let s = &mut r.deref_mut(arr.data_mut()).0;
        *s = 42;
        r.release(arr.data_mut());
    }
    let r = arr.borrow();
    assert_eq!(*r.deref(arr.data_ref()), (42, b'b'));
    r.release(arr.data_mut());
}

#[test]
fn refmut_map_split() {
    let mut arr = RefManager::new(|| vec![1u32, 2, 3, 4, 5, 6, 7, 8]);
    {
        let r = arr.borrow_mut();
        let (a, b) = r.deref_mut(arr.data_mut()).split_at_mut(4);
        a.iter_mut().for_each(|v| *v += 1);
        b.iter_mut().for_each(|v| *v *= 2);
        r.release(arr.data_mut());
        assert_eq!(arr.data_ref().peek().borrow_count, 0);
    }
    let r = arr.borrow();
    assert_eq!(&*r.deref(arr.data_ref()), &[2, 3, 4, 5, 10, 12, 14, 16]);
    r.release(arr.data_mut());
}
