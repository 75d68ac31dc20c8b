use weak_com::{Chain, LevelError, QueryReply, WeakPtr};

struct A;
struct B;
struct C;

type Family = (A, B, C);

const IID_A: u128 = 0x0a;
const IID_B: u128 = 0x0b;
const IID_C: u128 = 0x0c;

/// The status of an object that does not implement what it was asked for.
const NO_INTERFACE: i32 = -2147467262;

/// A foreign object that counts the calls made to it.
struct Stub {
    address: usize,
    interfaces: Vec<u128>,
    references: u32,
    queries: usize,
    releases: usize,
}

impl Stub {
    fn new(address: usize, interfaces: &[u128]) -> Stub {
        Stub { address, interfaces: interfaces.to_vec(), references: 1, queries: 0, releases: 0 }
    }

    fn calls(&self) -> usize {
        self.queries + self.releases
    }

    fn query_interface(&mut self, target: usize, interface: u128, slot: &mut usize) -> i32 {
        assert_eq!(target, self.address);
        self.queries += 1;
        if self.interfaces.contains(&interface) {
            self.references += 1;
            *slot = self.address;
            0
        } else {
            NO_INTERFACE
        }
    }

    fn release(&mut self, target: usize) -> u32 {
        assert_eq!(target, self.address);
        self.releases += 1;
        self.references -= 1;
        self.references
    }
}

/// A cast as a caller makes it: the query goes to the object, the reply to
/// the library.
fn cast<T, U>(source: &WeakPtr<T>, object: &mut Stub, interface: u128) -> (WeakPtr<U>, i32) {
    assert!(!source.is_null());
    let target = source.as_unknown();
    let mut slot = WeakPtr::<U>::null();
    let status = object.query_interface(target.as_ptr(), interface, slot.mut_void());
    source.cast::<U>(QueryReply { status, slot: slot.as_ptr() })
}

fn destroy<T>(handle: &WeakPtr<T>, object: &mut Stub) {
    assert!(!handle.is_null());
    object.release(handle.as_unknown().as_ptr());
}

#[test]
fn cast_to_an_implemented_interface_succeeds() {
    let mut object = Stub::new(0x7000, &[IID_A, IID_B]);
    let source = WeakPtr::<A>::from_raw(0x7000);
    let (cast_b, status) = cast::<A, B>(&source, &mut object, IID_B);
    assert_eq!(status, 0);
    assert!(!cast_b.is_null());
    assert_eq!(cast_b.as_ptr(), source.as_ptr());
    assert_eq!(object.references, 2);
    let (cast_a, status) = cast::<B, A>(&cast_b, &mut object, IID_A);
    assert_eq!(status, 0);
    assert_eq!(cast_a.as_ptr(), 0x7000);
    assert_eq!(object.references, 3);
    assert_eq!(object.queries, 2);
}

#[test]
fn cast_to_a_missing_interface_fails() {
    let mut object = Stub::new(0x7000, &[IID_A, IID_B]);
    let source = WeakPtr::<A>::from_raw(0x7000);
    let (cast_c, status) = cast::<A, C>(&source, &mut object, IID_C);
    assert_ne!(status, 0);
    assert_eq!(status, NO_INTERFACE);
    assert!(cast_c.is_null());
    assert_eq!(object.references, 1);
    assert_eq!(object.queries, 1);
}

#[test]
fn cast_never_mixes_handle_and_status() {
    let mut object = Stub::new(0x7000, &[IID_A, IID_B]);
    let source = WeakPtr::<A>::from_raw(0x7000);
    for interface in [IID_A, IID_B, IID_C, 0, u128::MAX] {
        let (handle, status) = cast::<A, C>(&source, &mut object, interface);
        assert_eq!(handle.is_null(), status != 0);
    }
}

#[test]
fn narrowing_makes_no_foreign_call() {
    let mut object = Stub::new(0x7000, &[IID_A, IID_B, IID_C]);
    let chain = Chain::<Family>::from_level::<1>(WeakPtr::from_raw(0x7000));
    let base = chain.as_level::<1>().expect("the base level is always there");
    assert_eq!(base.as_ptr(), 0x7000);
    assert!(chain.as_level::<2>().is_none());
    assert!(chain.as_level::<3>().is_none());
    assert!(chain.try_level::<2>().is_err());
    assert_eq!(object.calls(), 0);
    assert_eq!(object.references, 1);
    destroy(&*chain, &mut object);
    assert_eq!(object.calls(), 1);
    assert_eq!(object.references, 0);
}

#[test]
fn upgrade_by_cast_and_rewrap() {
    let mut object = Stub::new(0x7000, &[IID_A, IID_B]);
    let seed = WeakPtr::<A>::from_raw(0x7000);

    let chain = Chain::<Family>::from_level::<1>(seed);
    assert!(chain.as_level::<2>().is_none());
    assert_eq!(chain.level(), 1);
    let (cast_c, status) = cast::<A, C>(&*chain, &mut object, IID_C);
    assert_ne!(status, 0);
    assert!(cast_c.is_null());

    let (cast_b, status) = cast::<A, B>(&*chain, &mut object, IID_B);
    assert_eq!(status, 0);
    let upgraded = Chain::<Family>::from_level::<2>(cast_b);
    assert_eq!(upgraded.level(), 2);
    let second = upgraded.as_level::<2>().expect("the chain is at level 2 now");
    let first = upgraded.as_level::<1>().expect("level 1 is below level 2");
    assert_eq!(second.as_ptr(), 0x7000);
    assert_eq!(first.as_ptr(), 0x7000);
    assert!(first == second);
    assert!(first == seed);
    assert!(upgraded.as_level::<3>().is_none());
    assert_eq!(
        upgraded.try_level::<3>().err(),
        Some(LevelError { requested: 3, actual: 2 })
    );

    let (cast_c, status) = cast::<A, C>(&*upgraded, &mut object, IID_C);
    assert_ne!(status, 0);
    assert!(cast_c.is_null());
    let (cast_c, status) = cast::<B, C>(&second, &mut object, IID_C);
    assert_ne!(status, 0);
    assert!(cast_c.is_null());

    assert_eq!(object.queries, 4);
    assert_eq!(object.references, 2);
    destroy(&*upgraded, &mut object);
    destroy(&seed, &mut object);
    assert_eq!(object.references, 0);
}
