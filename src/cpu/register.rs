use vstd::prelude::*;

verus! {

/// The low byte of a 16-bit value.
pub open spec fn low_byte(v: u16) -> u8 {
    (v % 256) as u8
}

/// The high byte of a 16-bit value.
pub open spec fn high_byte(v: u16) -> u8 {
    (v / 256) as u8
}

/// The 16-bit value made of a high and a low byte.
pub open spec fn join_bytes(high: u8, low: u8) -> u16 {
    (high * 256 + low) as u16
}

/// An integer reduced modulo 2^16.
pub open spec fn wrap16(v: int) -> u16 {
    (v % 0x10000) as u16
}

/// An integer reduced modulo 2^8.
pub open spec fn wrap8(v: int) -> u8 {
    (v % 0x100) as u8
}

/// Which half of a register pair is meant.
pub enum Subregister {
    Higher,
    Lower,
}

/// The meaning of a flag byte: Z (bit 7), N (bit 6), H (bit 5), C (bit 4).
pub struct FlagState {
    pub z: bool,
    pub n: bool,
    pub h: bool,
    pub c: bool,
}

/// The byte that a flag state reads as. Bits 0 to 3 are always zero.
pub open spec fn state_bits(f: FlagState) -> u8 {
    ((if f.z { 128int } else { 0 }) + (if f.n { 64int } else { 0 }) + (if f.h { 32int } else { 0 })
        + (if f.c { 16int } else { 0 })) as u8
}

/// The flag state that a written byte sets; its low nibble is dropped.
pub open spec fn state_of_byte(b: u8) -> FlagState {
    FlagState { z: b >= 128, n: b % 128 >= 64, h: b % 64 >= 32, c: b % 32 >= 16 }
}

/// Bits 4 to 7 of a byte, read as flags and back, give the byte with its low nibble cleared.
proof fn lemma_flag_byte(b: u8)
    ensures
        state_bits(state_of_byte(b)) as int == b - b % 16,
{
    let b1: int = if b >= 128 { b - 128 } else { b as int };
    assert(b % 128 == b1);
    let b2: int = if b1 >= 64 { b1 - 64 } else { b1 };
    assert(b % 64 == b2);
    let b3: int = if b2 >= 32 { b2 - 32 } else { b2 };
    assert(b % 32 == b3);
    let b4: int = if b3 >= 16 { b3 - 16 } else { b3 };
    assert(b % 16 == b4);
}

pub open spec fn no_flags() -> FlagState {
    FlagState { z: false, n: false, h: false, c: false }
}

/// The contents of the flag register. `Z`, `N`, `H` and `C` each stand for the set that holds that
/// flag alone; `Bits` holds any combination. Two values are equal when they hold the same flags.
#[derive(Clone, Copy, Debug)]
pub enum Flags {
    Z,
    N,
    H,
    C,
    Bits { zero: bool, subtract: bool, half_carry: bool, carry: bool },
}

impl Flags {
    /// Which flags this value holds.
    pub open spec fn state(self) -> FlagState {
        match self {
            Flags::Z => FlagState { z: true, n: false, h: false, c: false },
            Flags::N => FlagState { z: false, n: true, h: false, c: false },
            Flags::H => FlagState { z: false, n: false, h: true, c: false },
            Flags::C => FlagState { z: false, n: false, h: false, c: true },
            Flags::Bits { zero, subtract, half_carry, carry } => FlagState {
                z: zero,
                n: subtract,
                h: half_carry,
                c: carry,
            },
        }
    }

    /// The value holding exactly the flags of `f`.
    pub open spec fn from_state(f: FlagState) -> Flags {
        Flags::Bits { zero: f.z, subtract: f.n, half_carry: f.h, carry: f.c }
    }

    /// The four flags as booleans, in the order Z, N, H, C.
    pub fn parts(&self) -> (r: (bool, bool, bool, bool))
        ensures
            r.0 == self.state().z,
            r.1 == self.state().n,
            r.2 == self.state().h,
            r.3 == self.state().c,
    {
        match self {
            Flags::Z => (true, false, false, false),
            Flags::N => (false, true, false, false),
            Flags::H => (false, false, true, false),
            Flags::C => (false, false, false, true),
            Flags::Bits { zero, subtract, half_carry, carry } => (*zero, *subtract, *half_carry, *carry),
        }
    }

    /// No flag set.
    pub fn empty() -> (r: Flags)
        ensures
            r.state() == no_flags(),
    {
        Flags::Bits { zero: false, subtract: false, half_carry: false, carry: false }
    }

    /// The byte these flags read as.
    pub fn bits(&self) -> (r: u8)
        ensures
            r == state_bits(self.state()),
            r % 16 == 0,
    {
        let (z, n, h, c) = self.parts();
        let mut r: u8 = 0;
        if z {
            r = r + 128;
        }
        if n {
            r = r + 64;
        }
        if h {
            r = r + 32;
        }
        if c {
            r = r + 16;
        }
        r
    }

    /// The flags of bits 4 to 7 of `b`; bits 0 to 3 are dropped.
    pub fn from_bits_truncate(b: u8) -> (r: Flags)
        ensures
            r.state() == state_of_byte(b),
            state_bits(r.state()) as int == b - b % 16,
    {
        proof {
            lemma_flag_byte(b);
        }
        Flags::Bits { zero: b >= 128, subtract: b % 128 >= 64, half_carry: b % 64 >= 32, carry: b % 32 >= 16 }
    }

    /// Whether every flag held by `other` is held here.
    pub fn contains(&self, other: Flags) -> (r: bool)
        ensures
            r == ((other.state().z ==> self.state().z) && (other.state().n ==> self.state().n) && (
            other.state().h ==> self.state().h) && (other.state().c ==> self.state().c)),
    {
        let (z, n, h, c) = self.parts();
        let (oz, on, oh, oc) = other.parts();
        (!oz || z) && (!on || n) && (!oh || h) && (!oc || c)
    }

    /// Sets every flag held by `other`.
    pub fn insert(&mut self, other: Flags)
        ensures
            final(self).state() == (FlagState {
                z: old(self).state().z || other.state().z,
                n: old(self).state().n || other.state().n,
                h: old(self).state().h || other.state().h,
                c: old(self).state().c || other.state().c,
            }),
    {
        let (z, n, h, c) = self.parts();
        let (oz, on, oh, oc) = other.parts();
        *self = Flags::Bits { zero: z || oz, subtract: n || on, half_carry: h || oh, carry: c || oc };
    }

    /// Clears every flag held by `other`.
    pub fn remove(&mut self, other: Flags)
        ensures
            final(self).state() == (FlagState {
                z: old(self).state().z && !other.state().z,
                n: old(self).state().n && !other.state().n,
                h: old(self).state().h && !other.state().h,
                c: old(self).state().c && !other.state().c,
            }),
    {
        let (z, n, h, c) = self.parts();
        let (oz, on, oh, oc) = other.parts();
        *self = Flags::Bits { zero: z && !oz, subtract: n && !on, half_carry: h && !oh, carry: c && !oc };
    }

    /// Sets (when `value`) or clears the flags held by `other`.
    pub fn set(&mut self, other: Flags, value: bool)
        ensures
            final(self).state() == (FlagState {
                z: if other.state().z { value } else { old(self).state().z },
                n: if other.state().n { value } else { old(self).state().n },
                h: if other.state().h { value } else { old(self).state().h },
                c: if other.state().c { value } else { old(self).state().c },
            }),
    {
        if value {
            self.insert(other);
        } else {
            self.remove(other);
        }
    }

    /// Clears all flags.
    pub fn clear(&mut self)
        ensures
            final(self).state() == no_flags(),
    {
        *self = Flags::empty();
    }
}

impl PartialEq for Flags {
    fn eq(&self, other: &Flags) -> (r: bool) {
        let (z, n, h, c) = self.parts();
        let (oz, on, oh, oc) = other.parts();
        z == oz && n == on && h == oh && c == oc
    }
}

impl vstd::std_specs::cmp::PartialEqSpecImpl for Flags {
    open spec fn obeys_eq_spec() -> bool {
        true
    }

    open spec fn eq_spec(&self, other: &Flags) -> bool {
        self.state() == other.state()
    }
}

impl Eq for Flags {

}

impl core::ops::BitOr for Flags {
    type Output = Flags;

    /// The flags held by either side.
    fn bitor(self, other: Flags) -> (r: Flags) {
        let (z, n, h, c) = self.parts();
        let (oz, on, oh, oc) = other.parts();
        Flags::Bits { zero: z || oz, subtract: n || on, half_carry: h || oh, carry: c || oc }
    }
}

impl vstd::std_specs::ops::BitOrSpecImpl for Flags {
    open spec fn obeys_bitor_spec() -> bool {
        true
    }

    open spec fn bitor_req(self, other: Flags) -> bool {
        true
    }

    open spec fn bitor_spec(self, other: Flags) -> Flags {
        Flags::from_state(
            FlagState {
                z: self.state().z || other.state().z,
                n: self.state().n || other.state().n,
                h: self.state().h || other.state().h,
                c: self.state().c || other.state().c,
            },
        )
    }
}

impl Default for Flags {
    fn default() -> (r: Flags)
        ensures
            r.state() == no_flags(),
    {
        Flags::empty()
    }
}

/// A 16-bit register that can also be used as two 8-bit halves.
pub trait DMGRegister {
    /// The 16-bit value the register holds.
    spec fn value(&self) -> u16;

    /// What the register keeps of a written value.
    spec fn kept(&self, v: u16) -> u16;

    fn read(&self) -> (r: u16)
        ensures
            r == self.value(),
    ;

    fn write(&mut self, value: u16)
        ensures
            final(self).value() == old(self).kept(value),
    ;

    /// Adds one, wrapping at 2^16.
    fn inc(&mut self)
        ensures
            final(self).value() == old(self).kept(wrap16(old(self).value() + 1)),
    ;

    /// Adds `value`, wrapping at 2^16.
    fn overflowing_add(&mut self, value: u16)
        ensures
            final(self).value() == old(self).kept(wrap16(old(self).value() + value)),
    ;

    fn read_lower(&self) -> (r: u8)
        ensures
            r == low_byte(self.value()),
    ;

    fn write_lower(&mut self, value: u8)
        ensures
            final(self).value() == old(self).kept(join_bytes(high_byte(old(self).value()), value)),
    ;

    fn read_higher(&self) -> (r: u8)
        ensures
            r == high_byte(self.value()),
    ;

    fn write_higher(&mut self, value: u8)
        ensures
            final(self).value() == old(self).kept(join_bytes(value, low_byte(old(self).value()))),
    ;

    fn read_subreg(&self, subregister: Subregister) -> (r: u8)
        ensures
            r == match subregister {
                Subregister::Higher => high_byte(self.value()),
                Subregister::Lower => low_byte(self.value()),
            },
    ;

    fn write_subreg(&mut self, subregister: Subregister, value: u8)
        ensures
            final(self).value() == old(self).kept(
                match subregister {
                    Subregister::Higher => join_bytes(value, low_byte(old(self).value())),
                    Subregister::Lower => join_bytes(high_byte(old(self).value()), value),
                },
            ),
    ;
}

/// A plain register pair (BC, DE, HL, SP, PC).
pub struct Register16bit {
    pub value: u16,
}

impl Register16bit {
    pub fn new() -> (r: Register16bit)
        ensures
            r.value == 0,
    {
        Register16bit { value: 0 }
    }
}

impl DMGRegister for Register16bit {
    open spec fn value(&self) -> u16 {
        self.value
    }

    open spec fn kept(&self, v: u16) -> u16 {
        v
    }

    fn read(&self) -> (r: u16) {
        self.value
    }

    fn write(&mut self, value: u16) {
        self.value = value;
    }

    fn inc(&mut self) {
        self.value = self.value.wrapping_add(1);
    }

    fn overflowing_add(&mut self, value: u16) {
        self.value = self.value.wrapping_add(value);
    }

    fn read_lower(&self) -> (r: u8) {
        (self.value % 256) as u8
    }

    fn write_lower(&mut self, value: u8) {
        self.value = (self.value / 256) * 256 + value as u16;
    }

    fn read_higher(&self) -> (r: u8) {
        (self.value / 256) as u8
    }

    fn write_higher(&mut self, value: u8) {
        self.value = (value as u16) * 256 + self.value % 256;
    }

    fn read_subreg(&self, subregister: Subregister) -> (r: u8) {
        match subregister {
            Subregister::Higher => self.read_higher(),
            Subregister::Lower => self.read_lower(),
        }
    }

    fn write_subreg(&mut self, subregister: Subregister, value: u8) {
        match subregister {
            Subregister::Higher => self.write_higher(value),
            Subregister::Lower => self.write_lower(value),
        }
    }
}

/// The accumulator A and the flag register F.
pub struct AFRegister {
    pub a: u8,
    pub flags: Flags,
}

/// A 16-bit value with its low nibble cleared, as the AF pair keeps it.
pub open spec fn af_kept(v: u16) -> u16 {
    (v - v % 16) as u16
}

impl AFRegister {
    pub fn new() -> (r: AFRegister)
        ensures
            r.a == 0,
            r.flags.state() == no_flags(),
    {
        AFRegister { a: 0, flags: Flags::empty() }
    }

    pub fn read_a(&self) -> (r: u8)
        ensures
            r == self.a,
    {
        self.a
    }

    pub fn write_a(&mut self, value: u8)
        ensures
            final(self).a == value,
            final(self).flags == old(self).flags,
    {
        self.a = value;
    }
}

impl DMGRegister for AFRegister {
    open spec fn value(&self) -> u16 {
        join_bytes(self.a, state_bits(self.flags.state()))
    }

    open spec fn kept(&self, v: u16) -> u16 {
        af_kept(v)
    }

    fn read(&self) -> (r: u16) {
        (self.a as u16) * 256 + self.flags.bits() as u16
    }

    fn write(&mut self, value: u16) {
        self.a = (value / 256) as u8;
        self.flags = Flags::from_bits_truncate((value % 256) as u8);
    }

    fn inc(&mut self) {
        let v = self.read().wrapping_add(1);
        self.write(v);
    }

    fn overflowing_add(&mut self, value: u16) {
        let v = self.read().wrapping_add(value);
        self.write(v);
    }

    fn read_lower(&self) -> (r: u8) {
        self.flags.bits()
    }

    fn write_lower(&mut self, value: u8) {
        self.flags = Flags::from_bits_truncate(value);
    }

    fn read_higher(&self) -> (r: u8) {
        self.a
    }

    fn write_higher(&mut self, value: u8) {
        self.a = value;
        proof {
            assert(state_bits(self.flags.state()) % 16 == 0);
        }
    }

    fn read_subreg(&self, subregister: Subregister) -> (r: u8) {
        match subregister {
            Subregister::Higher => self.read_higher(),
            Subregister::Lower => self.read_lower(),
        }
    }

    fn write_subreg(&mut self, subregister: Subregister, value: u8) {
        match subregister {
            Subregister::Higher => self.write_higher(value),
            Subregister::Lower => self.write_lower(value),
        }
    }
}

/// The high and low bytes of a joined pair are the bytes it was joined from.
pub proof fn lemma_join_split(high: u8, low: u8)
    ensures
        high_byte(join_bytes(high, low)) == high,
        low_byte(join_bytes(high, low)) == low,
{
    vstd::arithmetic::div_mod::lemma_fundamental_div_mod_converse(
        high * 256 + low,
        256,
        high as int,
        low as int,
    );
}

/// A value split into its bytes and joined again is the value.
pub proof fn lemma_split_join(v: u16)
    ensures
        join_bytes(high_byte(v), low_byte(v)) == v,
{
    vstd::arithmetic::div_mod::lemma_fundamental_div_mod(v as int, 256);
}

/// A flag state read back from the byte it reads as is the same state.
pub proof fn lemma_flag_state_round_trip(f: FlagState)
    ensures
        state_of_byte(state_bits(f)) == f,
{
}

/// A plain register pair gives back any 16-bit value written to it: `write(v); read() == v`.
pub proof fn lemma_pair_write_read(reg: Register16bit, v: u16)
    ensures
        reg.kept(v) == v,
{
}

/// The AF pair gives back a written value with its low nibble cleared:
/// `write(v); read() == v & 0xFFF0`.
pub proof fn lemma_af_write_read(reg: AFRegister, v: u16)
    ensures
        reg.kept(v) == v & 0xFFF0,
{
    assert((v - v % 16) as u16 == v & 0xFFF0) by (bit_vector);
}

} // verus!
