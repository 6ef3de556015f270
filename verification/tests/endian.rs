use lib::endian::{u16be, u16le, u32be, u32le, u64be, u64le, u8be, u8le};

#[test]
fn values_round_trip() {
    assert_eq!(u8::from(u8be::new(0xab)), 0xab);
    assert_eq!(u8::from(u8le::from(0x7fu8)), 0x7f);
    assert_eq!(u16::from(u16be::new(0x1234)), 0x1234);
    assert_eq!(u16::from(u16le::from(0xbeefu16)), 0xbeef);
    assert_eq!(u32::from(u32be::new(0xdead_beef)), 0xdead_beef);
    assert_eq!(u32::from(u32le::from(1u32)), 1);
    assert_eq!(u64::from(u64be::new(u64::MAX - 5)), u64::MAX - 5);
    assert_eq!(u64::from(u64le::from(0x0102_0304_0506_0708u64)), 0x0102_0304_0506_0708);
}

#[test]
fn equality_follows_value() {
    assert!(u32be::new(7) == u32be::from(7u32));
    assert!(u32be::new(7) != u32be::new(0x0700_0000));
    assert!(u16le::default() == u16le::new(0));
    assert!(u64be::default() == u64be::new(0));
}

#[test]
fn bitwise_operators_act_on_values() {
    let a = u16be::new(0xf0f0);
    let b = u16be::new(0x3c3c);
    assert_eq!(u16::from(a | b), 0xfcfc);
    assert_eq!(u16::from(a & b), 0x3030);
    assert_eq!(u16::from(a ^ b), 0xcccc);
    assert_eq!(u16::from(!a), 0x0f0f);
    let mut c = u64le::new(0x00ff_0000_0000_ff00);
    c |= u64le::new(1);
    assert_eq!(u64::from(c), 0x00ff_0000_0000_ff01);
    c &= u64le::new(0xffff_0000_0000_0000);
    assert_eq!(u64::from(c), 0x00ff_0000_0000_0000);
    c ^= u64le::new(u64::MAX);
    assert_eq!(u64::from(c), 0xff00_ffff_ffff_ffff);
    let mut d = u32be::new(5);
    d ^= u32be::new(5);
    assert!(d == u32be::default());
    assert_eq!(u8::from(!u8le::new(0x0f)), 0xf0);
}
