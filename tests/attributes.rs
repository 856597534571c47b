use gl_context::{ContextAttributeFlag, ContextAttributeFlags, ContextAttributes, GLVersion};

fn alpha() -> ContextAttributeFlags {
    ContextAttributeFlags::alpha()
}

fn depth() -> ContextAttributeFlags {
    ContextAttributeFlags::depth()
}

fn stencil() -> ContextAttributeFlags {
    ContextAttributeFlags::stencil()
}

fn compat() -> ContextAttributeFlags {
    ContextAttributeFlags::compatibility_profile()
}

#[test]
fn flag_bits() {
    assert_eq!(alpha().bits(), 0x01);
    assert_eq!(depth().bits(), 0x02);
    assert_eq!(stencil().bits(), 0x04);
    assert_eq!(compat().bits(), 0x08);
    assert_eq!(ContextAttributeFlags::empty().bits(), 0);
    assert_eq!(ContextAttributeFlags::all().bits(), 0x0f);
    assert_eq!(ContextAttributeFlags::single(ContextAttributeFlag::Stencil), stencil());
}

#[test]
fn union_is_associative_and_commutative() {
    let a = alpha();
    let b = depth().union(stencil());
    let c = compat().union(alpha());
    assert_eq!(a.union(b).union(c), a.union(b.union(c)));
    assert_eq!(a.union(b), b.union(a));
    assert_eq!(a.union(b).union(c).bits(), 0x0f);
}

#[test]
fn empty_is_identity_of_union() {
    let x = alpha().union(stencil());
    assert_eq!(ContextAttributeFlags::empty().union(x), x);
    assert_eq!(x.union(ContextAttributeFlags::empty()), x);
}

#[test]
fn intersection_and_difference() {
    let a = alpha().union(depth()).union(stencil());
    let b = depth().union(compat());
    assert_eq!(a.intersection(b), depth());
    assert_eq!(a.intersection(b), b.intersection(a));
    assert_eq!(a.difference(b), alpha().union(stencil()));
    assert_eq!(b.difference(a), compat());
    assert!(a.difference(b).intersection(b).is_empty());
    assert_eq!(a.difference(b).union(a.intersection(b)), a);
    assert!(a.difference(a).is_empty());
}

#[test]
fn contains_is_subset() {
    let a = alpha().union(depth());
    assert!(a.contains(alpha()));
    assert!(a.contains(a));
    assert!(a.contains(ContextAttributeFlags::empty()));
    assert!(!a.contains(stencil()));
    assert!(!a.contains(alpha().union(stencil())));
    assert!(ContextAttributeFlags::all().contains(a));
}

#[test]
fn insert_and_remove() {
    let mut f = ContextAttributeFlags::empty();
    assert!(f.is_empty());
    f.insert(alpha().union(depth()));
    assert_eq!(f.bits(), 0x03);
    f.remove(alpha());
    assert_eq!(f, depth());
    assert!(!f.is_empty());
}

#[test]
fn from_bits_rejects_unknown_bits() {
    assert_eq!(ContextAttributeFlags::from_bits(0x05), Some(alpha().union(stencil())));
    assert_eq!(ContextAttributeFlags::from_bits(0x00), Some(ContextAttributeFlags::empty()));
    assert_eq!(ContextAttributeFlags::from_bits(0x10), None);
    assert_eq!(ContextAttributeFlags::from_bits(0xff), None);
    assert_eq!(ContextAttributeFlags::from_bits_truncate(0xf9), alpha().union(compat()));
}

#[test]
fn zeroed_sentinel() {
    let z = ContextAttributes::zeroed();
    assert_eq!(z.version, GLVersion::new(0, 0));
    assert!(z.flags.is_empty());
    assert!(z.is_zeroed());
    let real = ContextAttributes { version: GLVersion::new(3, 0), flags: ContextAttributeFlags::empty() };
    assert_ne!(real, z);
    assert!(!real.is_zeroed());
    let minor = ContextAttributes { version: GLVersion::new(0, 1), flags: ContextAttributeFlags::empty() };
    assert!(!minor.is_zeroed());
    let flagged = ContextAttributes { version: GLVersion::new(0, 0), flags: depth() };
    assert!(!flagged.is_zeroed());
}

#[test]
fn gl_version_fields() {
    let v = GLVersion::new(4, 6);
    assert_eq!(v.major, 4);
    assert_eq!(v.minor, 6);
}
