use pfwx::mem::{BoxHeap, UnsafeBox, UnsafePointer};

#[test]
fn packed_value_comes_out_once() {
    let mut heap: BoxHeap<String> = BoxHeap::new();
    let handle = UnsafeBox::pack(&mut heap, "payload".to_string());
    let raw = handle.into_raw();
    assert_eq!(raw, 0);
    assert!(heap.contains(raw));
    assert_eq!(UnsafeBox::<String>::from_raw(raw).take(&mut heap), Some("payload".to_string()));
    assert_eq!(UnsafeBox::<String>::from_raw(raw).take(&mut heap), None);
    assert_eq!(heap.len(), 0);
}

#[test]
fn numbers_rise_and_are_not_reused() {
    let mut heap: BoxHeap<u32> = BoxHeap::new();
    let a = UnsafeBox::pack(&mut heap, 10);
    let b = UnsafeBox::pack(&mut heap, 20);
    assert_eq!(a.as_raw(), 0);
    assert_eq!(b.as_raw(), 1);
    assert_eq!(a.unpack(&mut heap), 10);
    let c = UnsafeBox::pack(&mut heap, 30);
    assert_eq!(c.as_raw(), 2);
    assert!(!heap.contains(0));
    assert!(heap.contains(1));
    assert!(heap.contains(2));
    assert_eq!(heap.len(), 2);
    assert_eq!(b.unpack(&mut heap), 20);
    assert_eq!(c.unpack(&mut heap), 30);
    assert_eq!(heap.len(), 0);
    assert!(!heap.is_exhausted());
}

#[test]
fn middle_value_leaves_and_neighbours_stay() {
    let mut heap: BoxHeap<&'static str> = BoxHeap::new();
    let a = UnsafeBox::pack(&mut heap, "a").into_raw();
    let b = UnsafeBox::pack(&mut heap, "b").into_raw();
    let c = UnsafeBox::pack(&mut heap, "c").into_raw();
    assert_eq!(UnsafeBox::<&str>::from_raw(b).take(&mut heap), Some("b"));
    assert_eq!(UnsafeBox::<&str>::from_raw(c).take(&mut heap), Some("c"));
    assert_eq!(UnsafeBox::<&str>::from_raw(a).take(&mut heap), Some("a"));
    assert_eq!(UnsafeBox::<&str>::from_raw(a).take(&mut heap), None);
}

#[test]
fn cast_keeps_the_number() {
    let mut heap: BoxHeap<Vec<u8>> = BoxHeap::new();
    let typed = UnsafeBox::pack(&mut heap, vec![1, 2, 3]);
    let raw = typed.as_raw();
    let erased: UnsafeBox<()> = typed.cast::<()>();
    assert_eq!(erased.as_raw(), raw);
    let back: UnsafeBox<Vec<u8>> = erased.cast();
    assert_eq!(back.unpack(&mut heap), vec![1, 2, 3]);
}

#[test]
fn unknown_number_is_not_parked() {
    let mut heap: BoxHeap<u8> = BoxHeap::new();
    assert!(!heap.contains(7));
    assert_eq!(UnsafeBox::<u8>::from_raw(7).take(&mut heap), None);
    assert_eq!(heap.len(), 0);
}

#[test]
fn pointer_handles_keep_their_number() {
    let p: UnsafePointer<String> = UnsafePointer::from_raw(4096);
    assert_eq!(p.as_raw(), 4096);
    let q = p.clone();
    let r: UnsafePointer<u8> = p.cast();
    assert_eq!(r.as_raw(), 4096);
    assert_eq!(q.into_raw(), 4096);
    assert_eq!(r.into_raw(), 4096);
}
