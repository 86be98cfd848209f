use overzijten::AbortingGreeter;
use overzijten::CloneAbort;
use overzijten::CloneIntoBoxExt;
use overzijten::FatPtr;
use overzijten::Greeter;
use overzijten::Heap;
use overzijten::Layout;
use overzijten::Meta;
use overzijten::Slot;
use overzijten::assign_thin_mut;
use overzijten::boxed_clone_raw;

#[test]
fn test_clone_fn() {
    let f = Greeter::new(String::from("Hello,"));
    assert_eq!(f.invoke(), "Hello, world!");
    let ff = f.clone_into_box().unwrap();
    assert_eq!(ff.invoke(), "Hello, world!");
}

#[test]
#[should_panic(expected = "PanicClone::clone() is called")]
fn test_clone_panic() {
    let f = AbortingGreeter::new(
        String::from("Hello,"),
        String::from("PanicClone::clone() is called"),
    );
    assert_eq!(f.invoke(), "Hello, world!");
    let _ = f.clone_into_box().unwrap();
}

#[test]
fn clone_abort_reaches_the_caller_unchanged() {
    let f = AbortingGreeter::new(String::from("Hi"), String::from("no duplication today"));
    assert_eq!(f.invoke(), "Hi world!");
    match f.clone_into_box() {
        Ok(_) => panic!("duplication was supposed to abort"),
        Err(e) => assert_eq!(e.message(), "no duplication today"),
    }
}

#[test]
fn clone_owns_disjoint_state() {
    let mut original = Greeter::new(String::from("Hello,"));
    let mut clone = *original.clone_into_box().unwrap();
    clone.set_prefix(String::from("Goodbye,"));
    assert_eq!(original.invoke(), "Hello, world!");
    assert_eq!(clone.invoke(), "Goodbye, world!");
    original.set_prefix(String::from("Morning,"));
    assert_eq!(clone.invoke(), "Goodbye, world!");
    assert_eq!(original.invoke(), "Morning, world!");
}

#[test]
fn clone_of_empty_prefix() {
    let f = Greeter::new(String::new());
    assert_eq!(f.invoke(), " world!");
    let ff = f.clone_into_box().unwrap();
    assert_eq!(ff.invoke(), " world!");
}

#[test]
fn slot_write_then_move_out() {
    let mut slot: Slot<u64> = Slot::empty();
    slot.write(7);
    assert_eq!(slot.into_value(), 7);
}

#[test]
fn heap_release_restores_the_balance() {
    let mut heap = Heap::new();
    assert_eq!(heap.live_count(), 0);
    let layout = Layout { size: 8, align: 2 };
    let addr = heap.acquire(layout);
    assert_ne!(addr, 0);
    assert_eq!(heap.live_count(), 1);
    heap.release(addr, layout);
    assert_eq!(heap.live_count(), 0);
}

#[test]
fn raw_clone_preserves_the_metadata() {
    let mut heap = Heap::new();
    let layout = Layout { size: 16, align: 8 };
    let src_addr = heap.acquire(layout);
    let src = FatPtr { addr: src_addr, meta: Meta { ops: 42, layout } };
    let before = heap.live_count();
    let fat = boxed_clone_raw(&mut heap, src, Ok(())).unwrap();
    assert_eq!(fat.meta, src.meta);
    assert_ne!(fat.addr, src.addr);
    assert_ne!(fat.addr, 0);
    assert_eq!(fat.addr % layout.align, 0);
    assert_eq!(heap.live_count(), before + 1);
}

#[test]
fn raw_clone_failure_leaks_nothing() {
    let mut heap = Heap::new();
    let layout = Layout { size: 4, align: 4 };
    let src_addr = heap.acquire(layout);
    let src = FatPtr { addr: src_addr, meta: Meta { ops: 7, layout } };
    let before = heap.live_count();
    let outcome = boxed_clone_raw(
        &mut heap,
        src,
        Err(CloneAbort::new(String::from("dup refused"))),
    );
    match outcome {
        Ok(_) => panic!("the duplication outcome was an abort"),
        Err(e) => assert_eq!(e.message(), "dup refused"),
    }
    assert_eq!(heap.live_count(), before);
}

#[test]
fn assign_thin_mut_swaps_only_the_address() {
    let meta = Meta { ops: 9, layout: Layout { size: 1, align: 1 } };
    let fat = FatPtr { addr: 100, meta };
    let rebuilt = assign_thin_mut(fat, 260);
    assert_eq!(rebuilt.addr, 260);
    assert_eq!(rebuilt.meta, meta);
}

#[test]
fn abort_message_round_trip() {
    let abort = CloneAbort::new(String::from("cause"));
    assert_eq!(abort.message(), "cause");
}
