use vstd::prelude::*;
use vstd::std_specs::convert::FromSpecImpl;
use vstd::std_specs::ops::{BitAndSpecImpl, BitOrSpecImpl, BitXorSpecImpl, NotSpecImpl};

verus! {

// Integers kept in a fixed byte order, whatever the byte order of the machine:
// each type holds the bytes of its value, most significant first for the
// big-endian types and least significant first for the little-endian ones.
// Its view is the value; the bitwise operators act on the value.

/// A `u16` is the sum of its bytes, each weighted by its place.
proof fn lemma_bytes_u16(v: u16)
    ensures
        v == ((v >> 8u16) as u8) * 0x100 + ((v >> 0u16) as u8),
{
    assert(v == ((v >> 8u16) as u8) * 0x100 + ((v >> 0u16) as u8)) by (bit_vector);
}

/// A `u32` is the sum of its bytes, each weighted by its place.
proof fn lemma_bytes_u32(v: u32)
    ensures
        v == ((v >> 24u32) as u8) * 0x1000000 + ((v >> 16u32) as u8) * 0x10000 + ((v >> 8u32) as u8) * 0x100 + ((v >> 0u32) as u8),
{
    assert(v == ((v >> 24u32) as u8) * 0x1000000 + ((v >> 16u32) as u8) * 0x10000 + ((v >> 8u32) as u8) * 0x100 + ((v >> 0u32) as u8)) by (bit_vector);
}

/// A `u64` is the sum of its bytes, each weighted by its place.
proof fn lemma_bytes_u64(v: u64)
    ensures
        v == ((v >> 56u64) as u8) * 0x100000000000000 + ((v >> 48u64) as u8) * 0x1000000000000 + ((v >> 40u64) as u8) * 0x10000000000 + ((v >> 32u64) as u8) * 0x100000000 + ((v >> 24u64) as u8) * 0x1000000 + ((v >> 16u64) as u8) * 0x10000 + ((v >> 8u64) as u8) * 0x100 + ((v >> 0u64) as u8),
{
    assert(v == ((v >> 56u64) as u8) * 0x100000000000000 + ((v >> 48u64) as u8) * 0x1000000000000 + ((v >> 40u64) as u8) * 0x10000000000 + ((v >> 32u64) as u8) * 0x100000000 + ((v >> 24u64) as u8) * 0x1000000 + ((v >> 16u64) as u8) * 0x10000 + ((v >> 8u64) as u8) * 0x100 + ((v >> 0u64) as u8)) by (bit_vector);
}

/// A `u8` stored big-endian: its bytes, most significant first.
#[allow(non_camel_case_types)]
#[derive(Clone, Copy, PartialEq, Eq, Structural)]
pub struct u8be(u8);

impl View for u8be {
    type V = u8;

    closed spec fn view(&self) -> u8 {
        self.0
    }
}

impl u8be {
    /// The bytes that store `value`.
    pub closed spec fn from_value(value: u8) -> Self {
        u8be(value)
    }

    /// `value`, stored big-endian.
    pub fn new(value: u8) -> (r: Self)
        ensures
            r == Self::from_value(value),
            r@ == value,
    {
        u8be(value)
    }

    fn value(self) -> (r: u8)
        ensures
            r == self@,
    {
        self.0
    }
}

impl Default for u8be {
    fn default() -> (r: Self)
        ensures
            r@ == 0,
    {
        Self::new(0)
    }
}

impl From<u8> for u8be {
    fn from(value: u8) -> (r: Self)
        ensures
            r@ == value,
    {
        Self::new(value)
    }
}

impl FromSpecImpl<u8> for u8be {
    open spec fn obeys_from_spec() -> bool {
        true
    }

    open spec fn from_spec(v: u8) -> u8be {
        u8be::from_value(v)
    }
}

impl From<u8be> for u8 {
    fn from(value: u8be) -> (r: Self)
        ensures
            r == value@,
    {
        value.value()
    }
}

impl FromSpecImpl<u8be> for u8 {
    open spec fn obeys_from_spec() -> bool {
        true
    }

    open spec fn from_spec(v: u8be) -> u8 {
        v@
    }
}

impl core::ops::BitOr for u8be {
    type Output = Self;

    fn bitor(self, rhs: Self) -> (r: Self)
        ensures
            r@ == self@ | rhs@,
    {
        Self::new(self.value() | rhs.value())
    }
}

impl BitOrSpecImpl for u8be {
    open spec fn obeys_bitor_spec() -> bool {
        true
    }

    open spec fn bitor_req(self, rhs: Self) -> bool {
        true
    }

    open spec fn bitor_spec(self, rhs: Self) -> Self {
        u8be::from_value(self@ | rhs@)
    }
}

impl core::ops::BitOrAssign for u8be {
    fn bitor_assign(&mut self, rhs: Self)
        ensures
            final(self)@ == old(self)@ | rhs@,
    {
        *self = Self::new(self.value() | rhs.value());
    }
}

impl core::ops::BitAnd for u8be {
    type Output = Self;

    fn bitand(self, rhs: Self) -> (r: Self)
        ensures
            r@ == self@ & rhs@,
    {
        Self::new(self.value() & rhs.value())
    }
}

impl BitAndSpecImpl for u8be {
    open spec fn obeys_bitand_spec() -> bool {
        true
    }

    open spec fn bitand_req(self, rhs: Self) -> bool {
        true
    }

    open spec fn bitand_spec(self, rhs: Self) -> Self {
        u8be::from_value(self@ & rhs@)
    }
}

impl core::ops::BitAndAssign for u8be {
    fn bitand_assign(&mut self, rhs: Self)
        ensures
            final(self)@ == old(self)@ & rhs@,
    {
        *self = Self::new(self.value() & rhs.value());
    }
}

impl core::ops::BitXor for u8be {
    type Output = Self;

    fn bitxor(self, rhs: Self) -> (r: Self)
        ensures
            r@ == self@ ^ rhs@,
    {
        Self::new(self.value() ^ rhs.value())
    }
}

impl BitXorSpecImpl for u8be {
    open spec fn obeys_bitxor_spec() -> bool {
        true
    }

    open spec fn bitxor_req(self, rhs: Self) -> bool {
        true
    }

    open spec fn bitxor_spec(self, rhs: Self) -> Self {
        u8be::from_value(self@ ^ rhs@)
    }
}

impl core::ops::BitXorAssign for u8be {
    fn bitxor_assign(&mut self, rhs: Self)
        ensures
            final(self)@ == old(self)@ ^ rhs@,
    {
        *self = Self::new(self.value() ^ rhs.value());
    }
}

impl core::ops::Not for u8be {
    type Output = Self;

    fn not(self) -> (r: Self)
        ensures
            r@ == !(self@),
    {
        Self::new(!self.value())
    }
}

impl NotSpecImpl for u8be {
    open spec fn obeys_not_spec() -> bool {
        true
    }

    open spec fn not_req(self) -> bool {
        true
    }

    open spec fn not_spec(self) -> Self {
        u8be::from_value(!(self@))
    }
}

/// A `u8` stored little-endian: its bytes, least significant first.
#[allow(non_camel_case_types)]
#[derive(Clone, Copy, PartialEq, Eq, Structural)]
pub struct u8le(u8);

impl View for u8le {
    type V = u8;

    closed spec fn view(&self) -> u8 {
        self.0
    }
}

impl u8le {
    /// The bytes that store `value`.
    pub closed spec fn from_value(value: u8) -> Self {
        u8le(value)
    }

    /// `value`, stored little-endian.
    pub fn new(value: u8) -> (r: Self)
        ensures
            r == Self::from_value(value),
            r@ == value,
    {
        u8le(value)
    }

    fn value(self) -> (r: u8)
        ensures
            r == self@,
    {
        self.0
    }
}

impl Default for u8le {
    fn default() -> (r: Self)
        ensures
            r@ == 0,
    {
        Self::new(0)
    }
}

impl From<u8> for u8le {
    fn from(value: u8) -> (r: Self)
        ensures
            r@ == value,
    {
        Self::new(value)
    }
}

impl FromSpecImpl<u8> for u8le {
    open spec fn obeys_from_spec() -> bool {
        true
    }

    open spec fn from_spec(v: u8) -> u8le {
        u8le::from_value(v)
    }
}

impl From<u8le> for u8 {
    fn from(value: u8le) -> (r: Self)
        ensures
            r == value@,
    {
        value.value()
    }
}

impl FromSpecImpl<u8le> for u8 {
    open spec fn obeys_from_spec() -> bool {
        true
    }

    open spec fn from_spec(v: u8le) -> u8 {
        v@
    }
}

impl core::ops::BitOr for u8le {
    type Output = Self;

    fn bitor(self, rhs: Self) -> (r: Self)
        ensures
            r@ == self@ | rhs@,
    {
        Self::new(self.value() | rhs.value())
    }
}

impl BitOrSpecImpl for u8le {
    open spec fn obeys_bitor_spec() -> bool {
        true
    }

    open spec fn bitor_req(self, rhs: Self) -> bool {
        true
    }

    open spec fn bitor_spec(self, rhs: Self) -> Self {
        u8le::from_value(self@ | rhs@)
    }
}

impl core::ops::BitOrAssign for u8le {
    fn bitor_assign(&mut self, rhs: Self)
        ensures
            final(self)@ == old(self)@ | rhs@,
    {
        *self = Self::new(self.value() | rhs.value());
    }
}

impl core::ops::BitAnd for u8le {
    type Output = Self;

    fn bitand(self, rhs: Self) -> (r: Self)
        ensures
            r@ == self@ & rhs@,
    {
        Self::new(self.value() & rhs.value())
    }
}

impl BitAndSpecImpl for u8le {
    open spec fn obeys_bitand_spec() -> bool {
        true
    }

    open spec fn bitand_req(self, rhs: Self) -> bool {
        true
    }

    open spec fn bitand_spec(self, rhs: Self) -> Self {
        u8le::from_value(self@ & rhs@)
    }
}

impl core::ops::BitAndAssign for u8le {
    fn bitand_assign(&mut self, rhs: Self)
        ensures
            final(self)@ == old(self)@ & rhs@,
    {
        *self = Self::new(self.value() & rhs.value());
    }
}

impl core::ops::BitXor for u8le {
    type Output = Self;

    fn bitxor(self, rhs: Self) -> (r: Self)
        ensures
            r@ == self@ ^ rhs@,
    {
        Self::new(self.value() ^ rhs.value())
    }
}

impl BitXorSpecImpl for u8le {
    open spec fn obeys_bitxor_spec() -> bool {
        true
    }

    open spec fn bitxor_req(self, rhs: Self) -> bool {
        true
    }

    open spec fn bitxor_spec(self, rhs: Self) -> Self {
        u8le::from_value(self@ ^ rhs@)
    }
}

impl core::ops::BitXorAssign for u8le {
    fn bitxor_assign(&mut self, rhs: Self)
        ensures
            final(self)@ == old(self)@ ^ rhs@,
    {
        *self = Self::new(self.value() ^ rhs.value());
    }
}

impl core::ops::Not for u8le {
    type Output = Self;

    fn not(self) -> (r: Self)
        ensures
            r@ == !(self@),
    {
        Self::new(!self.value())
    }
}

impl NotSpecImpl for u8le {
    open spec fn obeys_not_spec() -> bool {
        true
    }

    open spec fn not_req(self) -> bool {
        true
    }

    open spec fn not_spec(self) -> Self {
        u8le::from_value(!(self@))
    }
}

/// A `u16` stored big-endian: its bytes, most significant first.
#[allow(non_camel_case_types)]
#[derive(Clone, Copy, PartialEq, Eq, Structural)]
pub struct u16be(u8, u8);

impl View for u16be {
    type V = u16;

    closed spec fn view(&self) -> u16 {
        (self.0 * 0x100 + self.1) as u16
    }
}

impl u16be {
    /// The bytes that store `value`.
    pub closed spec fn from_value(value: u16) -> Self {
        u16be((value >> 8u16) as u8, (value >> 0u16) as u8)
    }

    /// `value`, stored big-endian.
    pub fn new(value: u16) -> (r: Self)
        ensures
            r == Self::from_value(value),
            r@ == value,
    {
        proof {
            lemma_bytes_u16(value);
        }
        u16be((value >> 8u16) as u8, (value >> 0u16) as u8)
    }

    fn value(self) -> (r: u16)
        ensures
            r == self@,
    {
        (self.0 as u16) * 0x100 + self.1 as u16
    }
}

impl Default for u16be {
    fn default() -> (r: Self)
        ensures
            r@ == 0,
    {
        Self::new(0)
    }
}

impl From<u16> for u16be {
    fn from(value: u16) -> (r: Self)
        ensures
            r@ == value,
    {
        Self::new(value)
    }
}

impl FromSpecImpl<u16> for u16be {
    open spec fn obeys_from_spec() -> bool {
        true
    }

    open spec fn from_spec(v: u16) -> u16be {
        u16be::from_value(v)
    }
}

impl From<u16be> for u16 {
    fn from(value: u16be) -> (r: Self)
        ensures
            r == value@,
    {
        value.value()
    }
}

impl FromSpecImpl<u16be> for u16 {
    open spec fn obeys_from_spec() -> bool {
        true
    }

    open spec fn from_spec(v: u16be) -> u16 {
        v@
    }
}

impl core::ops::BitOr for u16be {
    type Output = Self;

    fn bitor(self, rhs: Self) -> (r: Self)
        ensures
            r@ == self@ | rhs@,
    {
        Self::new(self.value() | rhs.value())
    }
}

impl BitOrSpecImpl for u16be {
    open spec fn obeys_bitor_spec() -> bool {
        true
    }

    open spec fn bitor_req(self, rhs: Self) -> bool {
        true
    }

    open spec fn bitor_spec(self, rhs: Self) -> Self {
        u16be::from_value(self@ | rhs@)
    }
}

impl core::ops::BitOrAssign for u16be {
    fn bitor_assign(&mut self, rhs: Self)
        ensures
            final(self)@ == old(self)@ | rhs@,
    {
        *self = Self::new(self.value() | rhs.value());
    }
}

impl core::ops::BitAnd for u16be {
    type Output = Self;

    fn bitand(self, rhs: Self) -> (r: Self)
        ensures
            r@ == self@ & rhs@,
    {
        Self::new(self.value() & rhs.value())
    }
}

impl BitAndSpecImpl for u16be {
    open spec fn obeys_bitand_spec() -> bool {
        true
    }

    open spec fn bitand_req(self, rhs: Self) -> bool {
        true
    }

    open spec fn bitand_spec(self, rhs: Self) -> Self {
        u16be::from_value(self@ & rhs@)
    }
}

impl core::ops::BitAndAssign for u16be {
    fn bitand_assign(&mut self, rhs: Self)
        ensures
            final(self)@ == old(self)@ & rhs@,
    {
        *self = Self::new(self.value() & rhs.value());
    }
}

impl core::ops::BitXor for u16be {
    type Output = Self;

    fn bitxor(self, rhs: Self) -> (r: Self)
        ensures
            r@ == self@ ^ rhs@,
    {
        Self::new(self.value() ^ rhs.value())
    }
}

impl BitXorSpecImpl for u16be {
    open spec fn obeys_bitxor_spec() -> bool {
        true
    }

    open spec fn bitxor_req(self, rhs: Self) -> bool {
        true
    }

    open spec fn bitxor_spec(self, rhs: Self) -> Self {
        u16be::from_value(self@ ^ rhs@)
    }
}

impl core::ops::BitXorAssign for u16be {
    fn bitxor_assign(&mut self, rhs: Self)
        ensures
            final(self)@ == old(self)@ ^ rhs@,
    {
        *self = Self::new(self.value() ^ rhs.value());
    }
}

impl core::ops::Not for u16be {
    type Output = Self;

    fn not(self) -> (r: Self)
        ensures
            r@ == !(self@),
    {
        Self::new(!self.value())
    }
}

impl NotSpecImpl for u16be {
    open spec fn obeys_not_spec() -> bool {
        true
    }

    open spec fn not_req(self) -> bool {
        true
    }

    open spec fn not_spec(self) -> Self {
        u16be::from_value(!(self@))
    }
}

/// A `u16` stored little-endian: its bytes, least significant first.
#[allow(non_camel_case_types)]
#[derive(Clone, Copy, PartialEq, Eq, Structural)]
pub struct u16le(u8, u8);

impl View for u16le {
    type V = u16;

    closed spec fn view(&self) -> u16 {
        (self.0 + self.1 * 0x100) as u16
    }
}

impl u16le {
    /// The bytes that store `value`.
    pub closed spec fn from_value(value: u16) -> Self {
        u16le((value >> 0u16) as u8, (value >> 8u16) as u8)
    }

    /// `value`, stored little-endian.
    pub fn new(value: u16) -> (r: Self)
        ensures
            r == Self::from_value(value),
            r@ == value,
    {
        proof {
            lemma_bytes_u16(value);
        }
        u16le((value >> 0u16) as u8, (value >> 8u16) as u8)
    }

    fn value(self) -> (r: u16)
        ensures
            r == self@,
    {
        self.0 as u16 + (self.1 as u16) * 0x100
    }
}

impl Default for u16le {
    fn default() -> (r: Self)
        ensures
            r@ == 0,
    {
        Self::new(0)
    }
}

impl From<u16> for u16le {
    fn from(value: u16) -> (r: Self)
        ensures
            r@ == value,
    {
        Self::new(value)
    }
}

impl FromSpecImpl<u16> for u16le {
    open spec fn obeys_from_spec() -> bool {
        true
    }

    open spec fn from_spec(v: u16) -> u16le {
        u16le::from_value(v)
    }
}

impl From<u16le> for u16 {
    fn from(value: u16le) -> (r: Self)
        ensures
            r == value@,
    {
        value.value()
    }
}

impl FromSpecImpl<u16le> for u16 {
    open spec fn obeys_from_spec() -> bool {
        true
    }

    open spec fn from_spec(v: u16le) -> u16 {
        v@
    }
}

impl core::ops::BitOr for u16le {
    type Output = Self;

    fn bitor(self, rhs: Self) -> (r: Self)
        ensures
            r@ == self@ | rhs@,
    {
        Self::new(self.value() | rhs.value())
    }
}

impl BitOrSpecImpl for u16le {
    open spec fn obeys_bitor_spec() -> bool {
        true
    }

    open spec fn bitor_req(self, rhs: Self) -> bool {
        true
    }

    open spec fn bitor_spec(self, rhs: Self) -> Self {
        u16le::from_value(self@ | rhs@)
    }
}

impl core::ops::BitOrAssign for u16le {
    fn bitor_assign(&mut self, rhs: Self)
        ensures
            final(self)@ == old(self)@ | rhs@,
    {
        *self = Self::new(self.value() | rhs.value());
    }
}

impl core::ops::BitAnd for u16le {
    type Output = Self;

    fn bitand(self, rhs: Self) -> (r: Self)
        ensures
            r@ == self@ & rhs@,
    {
        Self::new(self.value() & rhs.value())
    }
}

impl BitAndSpecImpl for u16le {
    open spec fn obeys_bitand_spec() -> bool {
        true
    }

    open spec fn bitand_req(self, rhs: Self) -> bool {
        true
    }

    open spec fn bitand_spec(self, rhs: Self) -> Self {
        u16le::from_value(self@ & rhs@)
    }
}

impl core::ops::BitAndAssign for u16le {
    fn bitand_assign(&mut self, rhs: Self)
        ensures
            final(self)@ == old(self)@ & rhs@,
    {
        *self = Self::new(self.value() & rhs.value());
    }
}

impl core::ops::BitXor for u16le {
    type Output = Self;

    fn bitxor(self, rhs: Self) -> (r: Self)
        ensures
            r@ == self@ ^ rhs@,
    {
        Self::new(self.value() ^ rhs.value())
    }
}

impl BitXorSpecImpl for u16le {
    open spec fn obeys_bitxor_spec() -> bool {
        true
    }

    open spec fn bitxor_req(self, rhs: Self) -> bool {
        true
    }

    open spec fn bitxor_spec(self, rhs: Self) -> Self {
        u16le::from_value(self@ ^ rhs@)
    }
}

impl core::ops::BitXorAssign for u16le {
    fn bitxor_assign(&mut self, rhs: Self)
        ensures
            final(self)@ == old(self)@ ^ rhs@,
    {
        *self = Self::new(self.value() ^ rhs.value());
    }
}

impl core::ops::Not for u16le {
    type Output = Self;

    fn not(self) -> (r: Self)
        ensures
            r@ == !(self@),
    {
        Self::new(!self.value())
    }
}

impl NotSpecImpl for u16le {
    open spec fn obeys_not_spec() -> bool {
        true
    }

    open spec fn not_req(self) -> bool {
        true
    }

    open spec fn not_spec(self) -> Self {
        u16le::from_value(!(self@))
    }
}

/// A `u32` stored big-endian: its bytes, most significant first.
#[allow(non_camel_case_types)]
#[derive(Clone, Copy, PartialEq, Eq, Structural)]
pub struct u32be(u8, u8, u8, u8);

impl View for u32be {
    type V = u32;

    closed spec fn view(&self) -> u32 {
        (self.0 * 0x1000000 + self.1 * 0x10000 + self.2 * 0x100 + self.3) as u32
    }
}

impl u32be {
    /// The bytes that store `value`.
    pub closed spec fn from_value(value: u32) -> Self {
        u32be((value >> 24u32) as u8, (value >> 16u32) as u8, (value >> 8u32) as u8, (value >> 0u32) as u8)
    }

    /// `value`, stored big-endian.
    pub fn new(value: u32) -> (r: Self)
        ensures
            r == Self::from_value(value),
            r@ == value,
    {
        proof {
            lemma_bytes_u32(value);
        }
        u32be((value >> 24u32) as u8, (value >> 16u32) as u8, (value >> 8u32) as u8, (value >> 0u32) as u8)
    }

    fn value(self) -> (r: u32)
        ensures
            r == self@,
    {
        (self.0 as u32) * 0x1000000 + (self.1 as u32) * 0x10000 + (self.2 as u32) * 0x100 + self.3 as u32
    }
}

impl Default for u32be {
    fn default() -> (r: Self)
        ensures
            r@ == 0,
    {
        Self::new(0)
    }
}

impl From<u32> for u32be {
    fn from(value: u32) -> (r: Self)
        ensures
            r@ == value,
    {
        Self::new(value)
    }
}

impl FromSpecImpl<u32> for u32be {
    open spec fn obeys_from_spec() -> bool {
        true
    }

    open spec fn from_spec(v: u32) -> u32be {
        u32be::from_value(v)
    }
}

impl From<u32be> for u32 {
    fn from(value: u32be) -> (r: Self)
        ensures
            r == value@,
    {
        value.value()
    }
}

impl FromSpecImpl<u32be> for u32 {
    open spec fn obeys_from_spec() -> bool {
        true
    }

    open spec fn from_spec(v: u32be) -> u32 {
        v@
    }
}

impl core::ops::BitOr for u32be {
    type Output = Self;

    fn bitor(self, rhs: Self) -> (r: Self)
        ensures
            r@ == self@ | rhs@,
    {
        Self::new(self.value() | rhs.value())
    }
}

impl BitOrSpecImpl for u32be {
    open spec fn obeys_bitor_spec() -> bool {
        true
    }

    open spec fn bitor_req(self, rhs: Self) -> bool {
        true
    }

    open spec fn bitor_spec(self, rhs: Self) -> Self {
        u32be::from_value(self@ | rhs@)
    }
}

impl core::ops::BitOrAssign for u32be {
    fn bitor_assign(&mut self, rhs: Self)
        ensures
            final(self)@ == old(self)@ | rhs@,
    {
        *self = Self::new(self.value() | rhs.value());
    }
}

impl core::ops::BitAnd for u32be {
    type Output = Self;

    fn bitand(self, rhs: Self) -> (r: Self)
        ensures
            r@ == self@ & rhs@,
    {
        Self::new(self.value() & rhs.value())
    }
}

impl BitAndSpecImpl for u32be {
    open spec fn obeys_bitand_spec() -> bool {
        true
    }

    open spec fn bitand_req(self, rhs: Self) -> bool {
        true
    }

    open spec fn bitand_spec(self, rhs: Self) -> Self {
        u32be::from_value(self@ & rhs@)
    }
}

impl core::ops::BitAndAssign for u32be {
    fn bitand_assign(&mut self, rhs: Self)
        ensures
            final(self)@ == old(self)@ & rhs@,
    {
        *self = Self::new(self.value() & rhs.value());
    }
}

impl core::ops::BitXor for u32be {
    type Output = Self;

    fn bitxor(self, rhs: Self) -> (r: Self)
        ensures
            r@ == self@ ^ rhs@,
    {
        Self::new(self.value() ^ rhs.value())
    }
}

impl BitXorSpecImpl for u32be {
    open spec fn obeys_bitxor_spec() -> bool {
        true
    }

    open spec fn bitxor_req(self, rhs: Self) -> bool {
        true
    }

    open spec fn bitxor_spec(self, rhs: Self) -> Self {
        u32be::from_value(self@ ^ rhs@)
    }
}

impl core::ops::BitXorAssign for u32be {
    fn bitxor_assign(&mut self, rhs: Self)
        ensures
            final(self)@ == old(self)@ ^ rhs@,
    {
        *self = Self::new(self.value() ^ rhs.value());
    }
}

impl core::ops::Not for u32be {
    type Output = Self;

    fn not(self) -> (r: Self)
        ensures
            r@ == !(self@),
    {
        Self::new(!self.value())
    }
}

impl NotSpecImpl for u32be {
    open spec fn obeys_not_spec() -> bool {
        true
    }

    open spec fn not_req(self) -> bool {
        true
    }

    open spec fn not_spec(self) -> Self {
        u32be::from_value(!(self@))
    }
}

/// A `u32` stored little-endian: its bytes, least significant first.
#[allow(non_camel_case_types)]
#[derive(Clone, Copy, PartialEq, Eq, Structural)]
pub struct u32le(u8, u8, u8, u8);

impl View for u32le {
    type V = u32;

    closed spec fn view(&self) -> u32 {
        (self.0 + self.1 * 0x100 + self.2 * 0x10000 + self.3 * 0x1000000) as u32
    }
}

impl u32le {
    /// The bytes that store `value`.
    pub closed spec fn from_value(value: u32) -> Self {
        u32le((value >> 0u32) as u8, (value >> 8u32) as u8, (value >> 16u32) as u8, (value >> 24u32) as u8)
    }

    /// `value`, stored little-endian.
    pub fn new(value: u32) -> (r: Self)
        ensures
            r == Self::from_value(value),
            r@ == value,
    {
        proof {
            lemma_bytes_u32(value);
        }
        u32le((value >> 0u32) as u8, (value >> 8u32) as u8, (value >> 16u32) as u8, (value >> 24u32) as u8)
    }

    fn value(self) -> (r: u32)
        ensures
            r == self@,
    {
        self.0 as u32 + (self.1 as u32) * 0x100 + (self.2 as u32) * 0x10000 + (self.3 as u32) * 0x1000000
    }
}

impl Default for u32le {
    fn default() -> (r: Self)
        ensures
            r@ == 0,
    {
        Self::new(0)
    }
}

impl From<u32> for u32le {
    fn from(value: u32) -> (r: Self)
        ensures
            r@ == value,
    {
        Self::new(value)
    }
}

impl FromSpecImpl<u32> for u32le {
    open spec fn obeys_from_spec() -> bool {
        true
    }

    open spec fn from_spec(v: u32) -> u32le {
        u32le::from_value(v)
    }
}

impl From<u32le> for u32 {
    fn from(value: u32le) -> (r: Self)
        ensures
            r == value@,
    {
        value.value()
    }
}

impl FromSpecImpl<u32le> for u32 {
    open spec fn obeys_from_spec() -> bool {
        true
    }

    open spec fn from_spec(v: u32le) -> u32 {
        v@
    }
}

impl core::ops::BitOr for u32le {
    type Output = Self;

    fn bitor(self, rhs: Self) -> (r: Self)
        ensures
            r@ == self@ | rhs@,
    {
        Self::new(self.value() | rhs.value())
    }
}

impl BitOrSpecImpl for u32le {
    open spec fn obeys_bitor_spec() -> bool {
        true
    }

    open spec fn bitor_req(self, rhs: Self) -> bool {
        true
    }

    open spec fn bitor_spec(self, rhs: Self) -> Self {
        u32le::from_value(self@ | rhs@)
    }
}

impl core::ops::BitOrAssign for u32le {
    fn bitor_assign(&mut self, rhs: Self)
        ensures
            final(self)@ == old(self)@ | rhs@,
    {
        *self = Self::new(self.value() | rhs.value());
    }
}

impl core::ops::BitAnd for u32le {
    type Output = Self;

    fn bitand(self, rhs: Self) -> (r: Self)
        ensures
            r@ == self@ & rhs@,
    {
        Self::new(self.value() & rhs.value())
    }
}

impl BitAndSpecImpl for u32le {
    open spec fn obeys_bitand_spec() -> bool {
        true
    }

    open spec fn bitand_req(self, rhs: Self) -> bool {
        true
    }

    open spec fn bitand_spec(self, rhs: Self) -> Self {
        u32le::from_value(self@ & rhs@)
    }
}

impl core::ops::BitAndAssign for u32le {
    fn bitand_assign(&mut self, rhs: Self)
        ensures
            final(self)@ == old(self)@ & rhs@,
    {
        *self = Self::new(self.value() & rhs.value());
    }
}

impl core::ops::BitXor for u32le {
    type Output = Self;

    fn bitxor(self, rhs: Self) -> (r: Self)
        ensures
            r@ == self@ ^ rhs@,
    {
        Self::new(self.value() ^ rhs.value())
    }
}

impl BitXorSpecImpl for u32le {
    open spec fn obeys_bitxor_spec() -> bool {
        true
    }

    open spec fn bitxor_req(self, rhs: Self) -> bool {
        true
    }

    open spec fn bitxor_spec(self, rhs: Self) -> Self {
        u32le::from_value(self@ ^ rhs@)
    }
}

impl core::ops::BitXorAssign for u32le {
    fn bitxor_assign(&mut self, rhs: Self)
        ensures
            final(self)@ == old(self)@ ^ rhs@,
    {
        *self = Self::new(self.value() ^ rhs.value());
    }
}

impl core::ops::Not for u32le {
    type Output = Self;

    fn not(self) -> (r: Self)
        ensures
            r@ == !(self@),
    {
        Self::new(!self.value())
    }
}

impl NotSpecImpl for u32le {
    open spec fn obeys_not_spec() -> bool {
        true
    }

    open spec fn not_req(self) -> bool {
        true
    }

    open spec fn not_spec(self) -> Self {
        u32le::from_value(!(self@))
    }
}

/// A `u64` stored big-endian: its bytes, most significant first.
#[allow(non_camel_case_types)]
#[derive(Clone, Copy, PartialEq, Eq, Structural)]
pub struct u64be(u8, u8, u8, u8, u8, u8, u8, u8);

impl View for u64be {
    type V = u64;

    closed spec fn view(&self) -> u64 {
        (self.0 * 0x100000000000000 + self.1 * 0x1000000000000 + self.2 * 0x10000000000 + self.3 * 0x100000000 + self.4 * 0x1000000 + self.5 * 0x10000 + self.6 * 0x100 + self.7) as u64
    }
}

impl u64be {
    /// The bytes that store `value`.
    pub closed spec fn from_value(value: u64) -> Self {
        u64be((value >> 56u64) as u8, (value >> 48u64) as u8, (value >> 40u64) as u8, (value >> 32u64) as u8, (value >> 24u64) as u8, (value >> 16u64) as u8, (value >> 8u64) as u8, (value >> 0u64) as u8)
    }

    /// `value`, stored big-endian.
    pub fn new(value: u64) -> (r: Self)
        ensures
            r == Self::from_value(value),
            r@ == value,
    {
        proof {
            lemma_bytes_u64(value);
        }
        u64be((value >> 56u64) as u8, (value >> 48u64) as u8, (value >> 40u64) as u8, (value >> 32u64) as u8, (value >> 24u64) as u8, (value >> 16u64) as u8, (value >> 8u64) as u8, (value >> 0u64) as u8)
    }

    fn value(self) -> (r: u64)
        ensures
            r == self@,
    {
        (self.0 as u64) * 0x100000000000000 + (self.1 as u64) * 0x1000000000000 + (self.2 as u64) * 0x10000000000 + (self.3 as u64) * 0x100000000 + (self.4 as u64) * 0x1000000 + (self.5 as u64) * 0x10000 + (self.6 as u64) * 0x100 + self.7 as u64
    }
}

impl Default for u64be {
    fn default() -> (r: Self)
        ensures
            r@ == 0,
    {
        Self::new(0)
    }
}

impl From<u64> for u64be {
    fn from(value: u64) -> (r: Self)
        ensures
            r@ == value,
    {
        Self::new(value)
    }
}

impl FromSpecImpl<u64> for u64be {
    open spec fn obeys_from_spec() -> bool {
        true
    }

    open spec fn from_spec(v: u64) -> u64be {
        u64be::from_value(v)
    }
}

impl From<u64be> for u64 {
    fn from(value: u64be) -> (r: Self)
        ensures
            r == value@,
    {
        value.value()
    }
}

impl FromSpecImpl<u64be> for u64 {
    open spec fn obeys_from_spec() -> bool {
        true
    }

    open spec fn from_spec(v: u64be) -> u64 {
        v@
    }
}

impl core::ops::BitOr for u64be {
    type Output = Self;

    fn bitor(self, rhs: Self) -> (r: Self)
        ensures
            r@ == self@ | rhs@,
    {
        Self::new(self.value() | rhs.value())
    }
}

impl BitOrSpecImpl for u64be {
    open spec fn obeys_bitor_spec() -> bool {
        true
    }

    open spec fn bitor_req(self, rhs: Self) -> bool {
        true
    }

    open spec fn bitor_spec(self, rhs: Self) -> Self {
        u64be::from_value(self@ | rhs@)
    }
}

impl core::ops::BitOrAssign for u64be {
    fn bitor_assign(&mut self, rhs: Self)
        ensures
            final(self)@ == old(self)@ | rhs@,
    {
        *self = Self::new(self.value() | rhs.value());
    }
}

impl core::ops::BitAnd for u64be {
    type Output = Self;

    fn bitand(self, rhs: Self) -> (r: Self)
        ensures
            r@ == self@ & rhs@,
    {
        Self::new(self.value() & rhs.value())
    }
}

impl BitAndSpecImpl for u64be {
    open spec fn obeys_bitand_spec() -> bool {
        true
    }

    open spec fn bitand_req(self, rhs: Self) -> bool {
        true
    }

    open spec fn bitand_spec(self, rhs: Self) -> Self {
        u64be::from_value(self@ & rhs@)
    }
}

impl core::ops::BitAndAssign for u64be {
    fn bitand_assign(&mut self, rhs: Self)
        ensures
            final(self)@ == old(self)@ & rhs@,
    {
        *self = Self::new(self.value() & rhs.value());
    }
}

impl core::ops::BitXor for u64be {
    type Output = Self;

    fn bitxor(self, rhs: Self) -> (r: Self)
        ensures
            r@ == self@ ^ rhs@,
    {
        Self::new(self.value() ^ rhs.value())
    }
}

impl BitXorSpecImpl for u64be {
    open spec fn obeys_bitxor_spec() -> bool {
        true
    }

    open spec fn bitxor_req(self, rhs: Self) -> bool {
        true
    }

    open spec fn bitxor_spec(self, rhs: Self) -> Self {
        u64be::from_value(self@ ^ rhs@)
    }
}

impl core::ops::BitXorAssign for u64be {
    fn bitxor_assign(&mut self, rhs: Self)
        ensures
            final(self)@ == old(self)@ ^ rhs@,
    {
        *self = Self::new(self.value() ^ rhs.value());
    }
}

impl core::ops::Not for u64be {
    type Output = Self;

    fn not(self) -> (r: Self)
        ensures
            r@ == !(self@),
    {
        Self::new(!self.value())
    }
}

impl NotSpecImpl for u64be {
    open spec fn obeys_not_spec() -> bool {
        true
    }

    open spec fn not_req(self) -> bool {
        true
    }

    open spec fn not_spec(self) -> Self {
        u64be::from_value(!(self@))
    }
}

/// A `u64` stored little-endian: its bytes, least significant first.
#[allow(non_camel_case_types)]
#[derive(Clone, Copy, PartialEq, Eq, Structural)]
pub struct u64le(u8, u8, u8, u8, u8, u8, u8, u8);

impl View for u64le {
    type V = u64;

    closed spec fn view(&self) -> u64 {
        (self.0 + self.1 * 0x100 + self.2 * 0x10000 + self.3 * 0x1000000 + self.4 * 0x100000000 + self.5 * 0x10000000000 + self.6 * 0x1000000000000 + self.7 * 0x100000000000000) as u64
    }
}

impl u64le {
    /// The bytes that store `value`.
    pub closed spec fn from_value(value: u64) -> Self {
        u64le((value >> 0u64) as u8, (value >> 8u64) as u8, (value >> 16u64) as u8, (value >> 24u64) as u8, (value >> 32u64) as u8, (value >> 40u64) as u8, (value >> 48u64) as u8, (value >> 56u64) as u8)
    }

    /// `value`, stored little-endian.
    pub fn new(value: u64) -> (r: Self)
        ensures
            r == Self::from_value(value),
            r@ == value,
    {
        proof {
            lemma_bytes_u64(value);
        }
        u64le((value >> 0u64) as u8, (value >> 8u64) as u8, (value >> 16u64) as u8, (value >> 24u64) as u8, (value >> 32u64) as u8, (value >> 40u64) as u8, (value >> 48u64) as u8, (value >> 56u64) as u8)
    }

    fn value(self) -> (r: u64)
        ensures
            r == self@,
    {
        self.0 as u64 + (self.1 as u64) * 0x100 + (self.2 as u64) * 0x10000 + (self.3 as u64) * 0x1000000 + (self.4 as u64) * 0x100000000 + (self.5 as u64) * 0x10000000000 + (self.6 as u64) * 0x1000000000000 + (self.7 as u64) * 0x100000000000000
    }
}

impl Default for u64le {
    fn default() -> (r: Self)
        ensures
            r@ == 0,
    {
        Self::new(0)
    }
}

impl From<u64> for u64le {
    fn from(value: u64) -> (r: Self)
        ensures
            r@ == value,
    {
        Self::new(value)
    }
}

impl FromSpecImpl<u64> for u64le {
    open spec fn obeys_from_spec() -> bool {
        true
    }

    open spec fn from_spec(v: u64) -> u64le {
        u64le::from_value(v)
    }
}

impl From<u64le> for u64 {
    fn from(value: u64le) -> (r: Self)
        ensures
            r == value@,
    {
        value.value()
    }
}

impl FromSpecImpl<u64le> for u64 {
    open spec fn obeys_from_spec() -> bool {
        true
    }

    open spec fn from_spec(v: u64le) -> u64 {
        v@
    }
}

impl core::ops::BitOr for u64le {
    type Output = Self;

    fn bitor(self, rhs: Self) -> (r: Self)
        ensures
            r@ == self@ | rhs@,
    {
        Self::new(self.value() | rhs.value())
    }
}

impl BitOrSpecImpl for u64le {
    open spec fn obeys_bitor_spec() -> bool {
        true
    }

    open spec fn bitor_req(self, rhs: Self) -> bool {
        true
    }

    open spec fn bitor_spec(self, rhs: Self) -> Self {
        u64le::from_value(self@ | rhs@)
    }
}

impl core::ops::BitOrAssign for u64le {
    fn bitor_assign(&mut self, rhs: Self)
        ensures
            final(self)@ == old(self)@ | rhs@,
    {
        *self = Self::new(self.value() | rhs.value());
    }
}

impl core::ops::BitAnd for u64le {
    type Output = Self;

    fn bitand(self, rhs: Self) -> (r: Self)
        ensures
            r@ == self@ & rhs@,
    {
        Self::new(self.value() & rhs.value())
    }
}

impl BitAndSpecImpl for u64le {
    open spec fn obeys_bitand_spec() -> bool {
        true
    }

    open spec fn bitand_req(self, rhs: Self) -> bool {
        true
    }

    open spec fn bitand_spec(self, rhs: Self) -> Self {
        u64le::from_value(self@ & rhs@)
    }
}

impl core::ops::BitAndAssign for u64le {
    fn bitand_assign(&mut self, rhs: Self)
        ensures
            final(self)@ == old(self)@ & rhs@,
    {
        *self = Self::new(self.value() & rhs.value());
    }
}

impl core::ops::BitXor for u64le {
    type Output = Self;

    fn bitxor(self, rhs: Self) -> (r: Self)
        ensures
            r@ == self@ ^ rhs@,
    {
        Self::new(self.value() ^ rhs.value())
    }
}

impl BitXorSpecImpl for u64le {
    open spec fn obeys_bitxor_spec() -> bool {
        true
    }

    open spec fn bitxor_req(self, rhs: Self) -> bool {
        true
    }

    open spec fn bitxor_spec(self, rhs: Self) -> Self {
        u64le::from_value(self@ ^ rhs@)
    }
}

impl core::ops::BitXorAssign for u64le {
    fn bitxor_assign(&mut self, rhs: Self)
        ensures
            final(self)@ == old(self)@ ^ rhs@,
    {
        *self = Self::new(self.value() ^ rhs.value());
    }
}

impl core::ops::Not for u64le {
    type Output = Self;

    fn not(self) -> (r: Self)
        ensures
            r@ == !(self@),
    {
        Self::new(!self.value())
    }
}

impl NotSpecImpl for u64le {
    open spec fn obeys_not_spec() -> bool {
        true
    }

    open spec fn not_req(self) -> bool {
        true
    }

    open spec fn not_spec(self) -> Self {
        u64le::from_value(!(self@))
    }
}

/// A `u8` stored in either byte order reads back as the same value.
pub proof fn law_round_trip_u8(v: u8)
    ensures
        u8be::from_value(v)@ == v,
        u8le::from_value(v)@ == v,
{
}

/// A `u16` stored in either byte order reads back as the same value.
pub proof fn law_round_trip_u16(v: u16)
    ensures
        u16be::from_value(v)@ == v,
        u16le::from_value(v)@ == v,
{
    lemma_bytes_u16(v);
}

/// A `u32` stored in either byte order reads back as the same value.
pub proof fn law_round_trip_u32(v: u32)
    ensures
        u32be::from_value(v)@ == v,
        u32le::from_value(v)@ == v,
{
    lemma_bytes_u32(v);
}

/// A `u64` stored in either byte order reads back as the same value.
pub proof fn law_round_trip_u64(v: u64)
    ensures
        u64be::from_value(v)@ == v,
        u64le::from_value(v)@ == v,
{
    lemma_bytes_u64(v);
}

} // verus!
