//! The data a batch carries: addresses, 256-bit amounts, transactions, and
//! the attack records the detector emits.

use vstd::prelude::*;

verus! {

/// A 160-bit account or contract address, held as plain integers: the four
/// high bytes and the sixteen low bytes of its big-endian form.
#[derive(Clone, Copy, Debug, PartialEq, Eq, Hash)]
pub struct Address {
    pub hi: u32,
    pub lo: u128,
}

impl Address {
    /// The address whose big-endian bytes are `bytes`.
    pub open spec fn spec_from_bytes(bytes: Seq<u8>) -> Address
        recommends
            bytes.len() == 20,
    {
        Address {
            hi: (bytes[0] * 0x100_0000 + bytes[1] * 0x1_0000 + bytes[2] * 0x100
                + bytes[3]) as u32,
            lo: (bytes[4] * 0x1_0000_0000_0000_0000_0000_0000_0000_00
                + bytes[5] * 0x1_0000_0000_0000_0000_0000_0000_0000
                + bytes[6] * 0x1_0000_0000_0000_0000_0000_0000_00
                + bytes[7] * 0x1_0000_0000_0000_0000_0000_0000
                + bytes[8] * 0x1_0000_0000_0000_0000_0000_00
                + bytes[9] * 0x1_0000_0000_0000_0000_0000
                + bytes[10] * 0x1_0000_0000_0000_0000_00
                + bytes[11] * 0x1_0000_0000_0000_0000
                + bytes[12] * 0x1_0000_0000_0000_00
                + bytes[13] * 0x1_0000_0000_0000
                + bytes[14] * 0x1_0000_0000_00
                + bytes[15] * 0x1_0000_0000
                + bytes[16] * 0x1_0000_00
                + bytes[17] * 0x1_0000
                + bytes[18] * 0x100
                + bytes[19]) as u128,
        }
    }

    /// Builds an address from its 20 big-endian bytes.
    pub fn from_bytes(bytes: &[u8; 20]) -> (a: Address)
        ensures
            a == Address::spec_from_bytes(bytes@),
    {
        let hi: u32 = (bytes[0] as u32) * 0x100_0000 + (bytes[1] as u32) * 0x1_0000
            + (bytes[2] as u32) * 0x100 + (bytes[3] as u32);
        let lo: u128 = (bytes[4] as u128) * 0x1_0000_0000_0000_0000_0000_0000_0000_00
            + (bytes[5] as u128) * 0x1_0000_0000_0000_0000_0000_0000_0000
            + (bytes[6] as u128) * 0x1_0000_0000_0000_0000_0000_0000_00
            + (bytes[7] as u128) * 0x1_0000_0000_0000_0000_0000_0000
            + (bytes[8] as u128) * 0x1_0000_0000_0000_0000_0000_00
            + (bytes[9] as u128) * 0x1_0000_0000_0000_0000_0000
            + (bytes[10] as u128) * 0x1_0000_0000_0000_0000_00
            + (bytes[11] as u128) * 0x1_0000_0000_0000_0000
            + (bytes[12] as u128) * 0x1_0000_0000_0000_00
            + (bytes[13] as u128) * 0x1_0000_0000_0000
            + (bytes[14] as u128) * 0x1_0000_0000_00
            + (bytes[15] as u128) * 0x1_0000_0000
            + (bytes[16] as u128) * 0x1_0000_00
            + (bytes[17] as u128) * 0x1_0000
            + (bytes[18] as u128) * 0x100
            + (bytes[19] as u128);
        Address { hi, lo }
    }

    /// Equality test usable in executable code.
    pub fn eq_addr(&self, other: &Address) -> (r: bool)
        ensures
            r == (*self == *other),
    {
        self.hi == other.hi && self.lo == other.lo
    }
}

/// A 256-bit unsigned amount (a gas price or a transferred value), held as
/// the two 128-bit halves of its big-endian form.
#[derive(Clone, Copy, Debug, PartialEq, Eq)]
pub struct Amount {
    pub hi: u128,
    pub lo: u128,
}

impl Amount {
    /// The mathematical value: the high half weighs 2^128.
    pub open spec fn as_int(self) -> int {
        self.hi * 0x1_0000_0000_0000_0000_0000_0000_0000_0000 + self.lo
    }

    /// The amount whose value is `v`, for `v` small enough to sit in the low half.
    pub fn from_u128(v: u128) -> (a: Amount)
        ensures
            a.as_int() == v,
    {
        Amount { hi: 0, lo: v }
    }

    /// Builds an amount from its four 64-bit limbs, least significant first.
    pub fn from_u64_limbs(l0: u64, l1: u64, l2: u64, l3: u64) -> (a: Amount)
        ensures
            a.as_int() == l0 + l1 * 0x1_0000_0000_0000_0000
                + l2 * 0x1_0000_0000_0000_0000_0000_0000_0000_0000
                + l3 * 0x1_0000_0000_0000_0000_0000_0000_0000_0000_0000_0000_0000_0000,
    {
        let lo: u128 = (l0 as u128) + (l1 as u128) * 0x1_0000_0000_0000_0000;
        let hi: u128 = (l2 as u128) + (l3 as u128) * 0x1_0000_0000_0000_0000;
        let a = Amount { hi, lo };
        proof {
            assert(a.as_int() == l0 + l1 * 0x1_0000_0000_0000_0000
                + l2 * 0x1_0000_0000_0000_0000_0000_0000_0000_0000
                + l3 * 0x1_0000_0000_0000_0000_0000_0000_0000_0000_0000_0000_0000_0000)
                by (nonlinear_arith)
                requires
                    a.hi == l2 + l3 * 0x1_0000_0000_0000_0000,
                    a.lo == l0 + l1 * 0x1_0000_0000_0000_0000,
            ;
        }
        a
    }

    /// Strict order on the mathematical values.
    pub fn lt(&self, other: &Amount) -> (r: bool)
        ensures
            r == (self.as_int() < other.as_int()),
    {
        proof {
            lemma_amount_order(*self, *other);
        }
        if self.hi != other.hi {
            self.hi < other.hi
        } else {
            self.lo < other.lo
        }
    }
}

/// The half-wise comparison of two amounts agrees with the order of their
/// mathematical values: the high half decides, and on equal high halves the
/// low half does.
proof fn lemma_amount_order(a: Amount, b: Amount)
    ensures
        a.hi < b.hi ==> a.as_int() < b.as_int(),
        b.hi < a.hi ==> b.as_int() < a.as_int(),
        a.hi == b.hi ==> (a.as_int() < b.as_int() <==> a.lo < b.lo),
{
    assert(a.hi < b.hi ==> a.as_int() < b.as_int()) by (nonlinear_arith)
        requires
            a.lo <= 0xffff_ffff_ffff_ffff_ffff_ffff_ffff_ffff,
    ;
    assert(b.hi < a.hi ==> b.as_int() < a.as_int()) by (nonlinear_arith)
        requires
            b.lo <= 0xffff_ffff_ffff_ffff_ffff_ffff_ffff_ffff,
    ;
}

/// One transaction of the batch the detector reads. The call-data is kept as
/// the hex characters of its textual form.
pub struct Transaction {
    /// Opaque unique label; detection assumes it is unique within a batch.
    pub hash: String,
    /// The transaction's originator.
    pub sender: Address,
    /// The contract being called; absent for contract-creation transactions.
    pub to: Option<Address>,
    /// Native-currency amount transferred (read by no current rule, but part
    /// of the record).
    pub value: Amount,
    /// Hex-encoded call-data; its tail encodes a token swap path.
    pub data: Vec<u8>,
    /// The ordering proxy: a higher gas price is assumed to execute earlier.
    pub gas_price: Amount,
}

/// One detected attack: the victim's transaction, the attacker's address, and
/// the attacker's two transactions around the victim.
pub struct SandwichAttack {
    pub victim_tx_hash: String,
    pub attacker: Address,
    pub frontrun_tx_hash: String,
    pub backrun_tx_hash: String,
}

/// The mathematical content of an attack record.
#[verifier::ext_equal]
pub ghost struct AttackView {
    pub victim_tx_hash: Seq<char>,
    pub attacker: Address,
    pub frontrun_tx_hash: Seq<char>,
    pub backrun_tx_hash: Seq<char>,
}

impl View for SandwichAttack {
    type V = AttackView;

    open spec fn view(&self) -> AttackView {
        AttackView {
            victim_tx_hash: self.victim_tx_hash@,
            attacker: self.attacker,
            frontrun_tx_hash: self.frontrun_tx_hash@,
            backrun_tx_hash: self.backrun_tx_hash@,
        }
    }
}

} // verus!
