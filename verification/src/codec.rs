//! Wire codec and message identity registry for the typed CAN bus.
//!
//! Every message type is a fixed-size, fixed-layout record with an associated
//! 11-bit bus identifier. Multi-byte fields are laid out big-endian. Every
//! byte sequence of the right length decodes to a value; every other length
//! is rejected.

use vstd::prelude::*;

verus! {

/// Bus bit rate in bits per second.
pub const BITRATE: u32 = 1_000_000;

/// Bus address of the zero-byte power-off broadcast.
pub const POWEROFF_ADDR: u16 = 0b_000_0000_0001;

/// Bus address of the battery telemetry record.
pub const BATTERY_ADDR: u16 = 0b_001_0001_0001;

/// Bus address of the cooler-box temperature record.
pub const COOLBOX_ADDR: u16 = 0b_001_0010_0001;

/// High byte of a 16-bit word in big-endian order.
pub open spec fn spec_u16_hi(v: u16) -> u8 {
    (v / 256) as u8
}

/// Low byte of a 16-bit word in big-endian order.
pub open spec fn spec_u16_lo(v: u16) -> u8 {
    (v % 256) as u8
}

/// The 16-bit word read from two big-endian bytes.
pub open spec fn spec_u16_from_be(hi: u8, lo: u8) -> u16 {
    (hi * 256 + lo) as u16
}

/// The two's-complement bit pattern of a signed 16-bit value.
pub open spec fn spec_bits_of_i16(v: i16) -> u16 {
    if v >= 0 {
        v as u16
    } else {
        (v + 0x10000) as u16
    }
}

/// The signed 16-bit value whose two's-complement bit pattern is `b`.
pub open spec fn spec_i16_of_bits(b: u16) -> i16 {
    if b < 0x8000 {
        b as i16
    } else {
        (b - 0x10000) as i16
    }
}

/// The signed 16-bit value read from two big-endian bytes.
pub open spec fn spec_i16_from_be(hi: u8, lo: u8) -> i16 {
    spec_i16_of_bits(spec_u16_from_be(hi, lo))
}

pub fn u16_hi(v: u16) -> (r: u8)
    ensures
        r == spec_u16_hi(v),
{
    (v / 256) as u8
}

pub fn u16_lo(v: u16) -> (r: u8)
    ensures
        r == spec_u16_lo(v),
{
    (v % 256) as u8
}

pub fn u16_from_be(hi: u8, lo: u8) -> (r: u16)
    ensures
        r == spec_u16_from_be(hi, lo),
{
    (hi as u16) * 256 + (lo as u16)
}

pub fn bits_of_i16(v: i16) -> (r: u16)
    ensures
        r == spec_bits_of_i16(v),
{
    if v >= 0 {
        v as u16
    } else {
        ((v as i32) + 0x10000) as u16
    }
}

pub fn i16_of_bits(b: u16) -> (r: i16)
    ensures
        r == spec_i16_of_bits(b),
{
    if b < 0x8000 {
        b as i16
    } else {
        ((b as i32) - 0x10000) as i16
    }
}

/// A big-endian pair of bytes reassembles to the word it came from.
pub proof fn lemma_u16_be_round_trip(v: u16)
    ensures
        spec_u16_from_be(spec_u16_hi(v), spec_u16_lo(v)) == v,
{
}

/// The two's-complement bit pattern of a signed value reads back as it.
pub proof fn lemma_i16_bits_round_trip(v: i16)
    ensures
        spec_i16_of_bits(spec_bits_of_i16(v)) == v,
{
}

/// Trait for structs that have a CAN bus identifier.
pub trait CanID {
    const ID: u16;
}

/// A fixed-layout bus message: an identity plus a total, pure wire codec.
///
/// `spec_encode` always yields exactly `spec_width()` bytes; `spec_decode`
/// accepts a byte sequence exactly when its length is `spec_width()` (no
/// message type here restricts field values further), and inverts
/// `spec_encode`. Implementations prove both laws.
pub trait CanMessage: CanID + Sized {
    /// The fixed payload width of this message type, in bytes.
    spec fn spec_width() -> nat;

    /// The exact payload bytes of an instance.
    spec fn spec_encode(self) -> Seq<u8>;

    /// The instance a payload decodes to, if its length (and, for types that
    /// restrict legal values, its pattern) is accepted.
    spec fn spec_decode(bytes: Seq<u8>) -> Option<Self>;

    fn width() -> (r: usize)
        ensures
            r == Self::spec_width(),
    ;

    fn encode(&self) -> (r: Vec<u8>)
        ensures
            r@ == self.spec_encode(),
    ;

    fn decode(bytes: &[u8]) -> (r: Option<Self>)
        ensures
            r == Self::spec_decode(bytes@),
    ;

    /// Law: an encoding has exactly the type's fixed width.
    proof fn lemma_encode_width(self)
        ensures
            self.spec_encode().len() == Self::spec_width(),
    ;

    /// Law: decoding an encoding gives back the instance.
    proof fn lemma_round_trip(self)
        ensures
            Self::spec_decode(self.spec_encode()) == Some(self),
    ;

    /// Law: a byte sequence of the wrong length never decodes.
    proof fn lemma_reject_wrong_length(bytes: Seq<u8>)
        ensures
            bytes.len() != Self::spec_width() ==> Self::spec_decode(bytes) is None,
    ;

    /// Law: the registered identity fits standard 11-bit addressing and the
    /// fixed width fits a frame payload.
    proof fn lemma_registered()
        ensures
            Self::ID < 0x800,
            Self::spec_width() <= 8,
    ;
}

/// The bus addresses in use, one per message type.
#[allow(non_camel_case_types)]
#[derive(Debug, Clone, Copy, PartialEq, Eq, Structural)]
pub enum CanId {
    POWEROFF,
    BATTERY,
    COOLBOX,
}

impl CanId {
    /// The numeric bus address of this identifier.
    pub open spec fn spec_raw(self) -> u16 {
        match self {
            CanId::POWEROFF => POWEROFF_ADDR,
            CanId::BATTERY => BATTERY_ADDR,
            CanId::COOLBOX => COOLBOX_ADDR,
        }
    }

    pub fn into_raw(self) -> (r: u16)
        ensures
            r == self.spec_raw(),
    {
        match self {
            CanId::POWEROFF => POWEROFF_ADDR,
            CanId::BATTERY => BATTERY_ADDR,
            CanId::COOLBOX => COOLBOX_ADDR,
        }
    }

    pub fn try_from_raw(v: u16) -> (r: Option<CanId>)
        ensures
            r matches Some(id) ==> id.spec_raw() == v,
            r is None ==> (forall|id: CanId| id.spec_raw() != v),
    {
        if v == POWEROFF_ADDR {
            Some(CanId::POWEROFF)
        } else if v == BATTERY_ADDR {
            Some(CanId::BATTERY)
        } else if v == COOLBOX_ADDR {
            Some(CanId::COOLBOX)
        } else {
            None
        }
    }
}

/// Zero-byte broadcast that commands every node on the bus to power down.
#[derive(Debug, Clone, Copy, PartialEq, Eq, Structural)]
pub struct PowerOff;

impl CanID for PowerOff {
    const ID: u16 = POWEROFF_ADDR;
}

impl CanMessage for PowerOff {
    open spec fn spec_width() -> nat {
        0
    }

    open spec fn spec_encode(self) -> Seq<u8> {
        Seq::empty()
    }

    open spec fn spec_decode(bytes: Seq<u8>) -> Option<Self> {
        if bytes.len() == 0 {
            Some(PowerOff)
        } else {
            None
        }
    }

    fn width() -> (r: usize) {
        0
    }

    fn encode(&self) -> (r: Vec<u8>) {
        let r: Vec<u8> = Vec::new();
        assert(r@ =~= self.spec_encode());
        r
    }

    fn decode(bytes: &[u8]) -> (r: Option<Self>) {
        if bytes.len() == 0 {
            Some(PowerOff)
        } else {
            None
        }
    }

    proof fn lemma_encode_width(self) {
    }

    proof fn lemma_round_trip(self) {
    }

    proof fn lemma_reject_wrong_length(bytes: Seq<u8>) {
    }

    proof fn lemma_registered() {
    }
}

/// Battery telemetry: battery voltage and the measured output rail.
#[derive(Debug, Clone, Copy, PartialEq, Eq, Structural)]
pub struct BatteryData {
    pub battery_voltage_mv: u16,
    pub output_voltage_mv: i16,
    pub output_current_ma: i16,
}

impl CanID for BatteryData {
    const ID: u16 = BATTERY_ADDR;
}

impl CanMessage for BatteryData {
    open spec fn spec_width() -> nat {
        6
    }

    open spec fn spec_encode(self) -> Seq<u8> {
        seq![
            spec_u16_hi(self.battery_voltage_mv),
            spec_u16_lo(self.battery_voltage_mv),
            spec_u16_hi(spec_bits_of_i16(self.output_voltage_mv)),
            spec_u16_lo(spec_bits_of_i16(self.output_voltage_mv)),
            spec_u16_hi(spec_bits_of_i16(self.output_current_ma)),
            spec_u16_lo(spec_bits_of_i16(self.output_current_ma)),
        ]
    }

    open spec fn spec_decode(bytes: Seq<u8>) -> Option<Self> {
        if bytes.len() == 6 {
            Some(
                BatteryData {
                    battery_voltage_mv: spec_u16_from_be(bytes[0], bytes[1]),
                    output_voltage_mv: spec_i16_from_be(bytes[2], bytes[3]),
                    output_current_ma: spec_i16_from_be(bytes[4], bytes[5]),
                },
            )
        } else {
            None
        }
    }

    fn width() -> (r: usize) {
        6
    }

    fn encode(&self) -> (r: Vec<u8>) {
        let mut r: Vec<u8> = Vec::new();
        let ov = bits_of_i16(self.output_voltage_mv);
        let oc = bits_of_i16(self.output_current_ma);
        r.push(u16_hi(self.battery_voltage_mv));
        r.push(u16_lo(self.battery_voltage_mv));
        r.push(u16_hi(ov));
        r.push(u16_lo(ov));
        r.push(u16_hi(oc));
        r.push(u16_lo(oc));
        assert(r@ =~= self.spec_encode());
        r
    }

    fn decode(bytes: &[u8]) -> (r: Option<Self>) {
        if bytes.len() == 6 {
            Some(
                BatteryData {
                    battery_voltage_mv: u16_from_be(bytes[0], bytes[1]),
                    output_voltage_mv: i16_of_bits(u16_from_be(bytes[2], bytes[3])),
                    output_current_ma: i16_of_bits(u16_from_be(bytes[4], bytes[5])),
                },
            )
        } else {
            None
        }
    }

    proof fn lemma_encode_width(self) {
    }

    proof fn lemma_round_trip(self) {
        lemma_u16_be_round_trip(self.battery_voltage_mv);
        lemma_u16_be_round_trip(spec_bits_of_i16(self.output_voltage_mv));
        lemma_u16_be_round_trip(spec_bits_of_i16(self.output_current_ma));
        lemma_i16_bits_round_trip(self.output_voltage_mv);
        lemma_i16_bits_round_trip(self.output_current_ma);
    }

    proof fn lemma_reject_wrong_length(bytes: Seq<u8>) {
    }

    proof fn lemma_registered() {
    }
}

/// Cooler-box telemetry: box temperature in tenths of a degree Celsius.
#[derive(Debug, Clone, Copy, PartialEq, Eq, Structural)]
pub struct CoolBox {
    pub box_temperature_deg10: i16,
}

impl CanID for CoolBox {
    const ID: u16 = COOLBOX_ADDR;
}

impl CanMessage for CoolBox {
    open spec fn spec_width() -> nat {
        2
    }

    open spec fn spec_encode(self) -> Seq<u8> {
        seq![
            spec_u16_hi(spec_bits_of_i16(self.box_temperature_deg10)),
            spec_u16_lo(spec_bits_of_i16(self.box_temperature_deg10)),
        ]
    }

    open spec fn spec_decode(bytes: Seq<u8>) -> Option<Self> {
        if bytes.len() == 2 {
            Some(CoolBox { box_temperature_deg10: spec_i16_from_be(bytes[0], bytes[1]) })
        } else {
            None
        }
    }

    fn width() -> (r: usize) {
        2
    }

    fn encode(&self) -> (r: Vec<u8>) {
        let mut r: Vec<u8> = Vec::new();
        let t = bits_of_i16(self.box_temperature_deg10);
        r.push(u16_hi(t));
        r.push(u16_lo(t));
        assert(r@ =~= self.spec_encode());
        r
    }

    fn decode(bytes: &[u8]) -> (r: Option<Self>) {
        if bytes.len() == 2 {
            Some(CoolBox { box_temperature_deg10: i16_of_bits(u16_from_be(bytes[0], bytes[1])) })
        } else {
            None
        }
    }

    proof fn lemma_encode_width(self) {
    }

    proof fn lemma_round_trip(self) {
        lemma_u16_be_round_trip(spec_bits_of_i16(self.box_temperature_deg10));
        lemma_i16_bits_round_trip(self.box_temperature_deg10);
    }

    proof fn lemma_reject_wrong_length(bytes: Seq<u8>) {
    }

    proof fn lemma_registered() {
    }
}

/// The identities the registry binds: each message type's identifier
/// constant equals its declared bus address.
pub proof fn lemma_registered_addresses()
    ensures
        PowerOff::ID == POWEROFF_ADDR,
        BatteryData::ID == BATTERY_ADDR,
        CoolBox::ID == COOLBOX_ADDR,
{
}

/// Law: the registered message types claim pairwise distinct identifiers,
/// so no frame can carry two of them at once.
pub proof fn lemma_identity_exclusive()
    ensures
        PowerOff::ID != BatteryData::ID,
        PowerOff::ID != CoolBox::ID,
        BatteryData::ID != CoolBox::ID,
{
}

/// Law: the address enumeration itself never maps two identifiers to one
/// bus address.
pub proof fn lemma_can_id_injective(a: CanId, b: CanId)
    ensures
        a.spec_raw() == b.spec_raw() ==> a == b,
{
}

} // verus!
