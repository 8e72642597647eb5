//! Field elements of the Stark prime field, held as 32 big-endian bytes.

use starknet_core::types::FieldElement;
use vstd::prelude::*;

verus! {

/// The prime `2^251 + 17 * 2^192 + 1` of the field.
pub open spec fn field_prime() -> nat {
    0x800000000000011000000000000000000000000000000000000000000000001nat
}

/// The number that the eight bytes of `s` starting at `k` denote, most significant byte first.
pub open spec fn be_word(s: Seq<u8>, k: int) -> nat {
    (((((((s[k] as nat * 256 + s[k + 1] as nat) * 256 + s[k + 2] as nat) * 256 + s[k + 3] as nat)
        * 256 + s[k + 4] as nat) * 256 + s[k + 5] as nat) * 256 + s[k + 6] as nat) * 256 + s[k
        + 7] as nat)
}

/// The number that a string of 32 bytes denotes, most significant byte first.
pub open spec fn be_value(s: Seq<u8>) -> nat {
    ((be_word(s, 0) * 0x1_0000_0000_0000_0000 + be_word(s, 8)) * 0x1_0000_0000_0000_0000 + be_word(
        s,
        16,
    )) * 0x1_0000_0000_0000_0000 + be_word(s, 24)
}

/// The lower-case hexadecimal digit of a number below sixteen.
pub open spec fn hex_digit(n: int) -> char {
    if n == 0 {
        '0'
    } else if n == 1 {
        '1'
    } else if n == 2 {
        '2'
    } else if n == 3 {
        '3'
    } else if n == 4 {
        '4'
    } else if n == 5 {
        '5'
    } else if n == 6 {
        '6'
    } else if n == 7 {
        '7'
    } else if n == 8 {
        '8'
    } else if n == 9 {
        '9'
    } else if n == 10 {
        'a'
    } else if n == 11 {
        'b'
    } else if n == 12 {
        'c'
    } else if n == 13 {
        'd'
    } else if n == 14 {
        'e'
    } else {
        'f'
    }
}

/// Two lower-case hexadecimal digits for each byte, the high half first.
pub open spec fn hex_of(bytes: Seq<u8>) -> Seq<char> {
    Seq::new(
        2 * bytes.len(),
        |i: int|
            if i % 2 == 0 {
                hex_digit(bytes[i / 2] as int / 16)
            } else {
                hex_digit(bytes[i / 2] as int % 16)
            },
    )
}

/// `0x` and then the 64 hexadecimal digits of the 32 bytes.
pub open spec fn hex_text(bytes: Seq<u8>) -> Seq<char> {
    seq!['0', 'x'] + hex_of(bytes)
}

/// An element of the Stark prime field in canonical form: a number below `field_prime()`.
#[derive(Clone, Copy, Debug, PartialEq, Eq)]
pub struct Felt {
    bytes: [u8; 32],
}

impl View for Felt {
    type V = nat;

    closed spec fn view(&self) -> nat {
        be_value(self.bytes@)
    }
}

/// `String::push`: the character is added at the end.
#[verifier::external_body]
fn push_char(text: &mut String, c: char)
    ensures
        final(text)@ == old(text)@.push(c),
{
    text.push(c);
}

/// `FieldElement`'s `Mul`: the product of two canonical elements, reduced modulo the field's
/// prime, in its 32 big-endian bytes.
#[verifier::external_body]
fn field_mul(a: &[u8; 32], b: &[u8; 32]) -> (r: [u8; 32])
    requires
        be_value(a@) < field_prime(),
        be_value(b@) < field_prime(),
    ensures
        be_value(r@) == (be_value(a@) * be_value(b@)) % field_prime(),
{
    let x = FieldElement::from_bytes_be(a).unwrap();
    let y = FieldElement::from_bytes_be(b).unwrap();
    (x * y).to_bytes_be()
}

/// `FieldElement::floor_div`: the quotient of the two numbers, rounded down. It panics on a zero
/// divisor, which `requires` leaves out.
#[verifier::external_body]
fn field_floor_div(a: &[u8; 32], b: &[u8; 32]) -> (r: [u8; 32])
    requires
        be_value(a@) < field_prime(),
        0 < be_value(b@) < field_prime(),
    ensures
        be_value(r@) == be_value(a@) / be_value(b@),
{
    let x = FieldElement::from_bytes_be(a).unwrap();
    let y = FieldElement::from_bytes_be(b).unwrap();
    x.floor_div(y).to_bytes_be()
}

/// `FieldElement`'s `Add`: the sum of two canonical elements, reduced modulo the field's prime,
/// in its 32 big-endian bytes.
#[verifier::external_body]
fn field_add(a: &[u8; 32], b: &[u8; 32]) -> (r: [u8; 32])
    requires
        be_value(a@) < field_prime(),
        be_value(b@) < field_prime(),
    ensures
        be_value(r@) == (be_value(a@) + be_value(b@)) % field_prime(),
{
    let x = FieldElement::from_bytes_be(a).unwrap();
    let y = FieldElement::from_bytes_be(b).unwrap();
    (x + y).to_bytes_be()
}

fn hex_char(n: u8) -> (c: char)
    requires
        n < 16,
    ensures
        c == hex_digit(n as int),
{
    if n == 0 {
        '0'
    } else if n == 1 {
        '1'
    } else if n == 2 {
        '2'
    } else if n == 3 {
        '3'
    } else if n == 4 {
        '4'
    } else if n == 5 {
        '5'
    } else if n == 6 {
        '6'
    } else if n == 7 {
        '7'
    } else if n == 8 {
        '8'
    } else if n == 9 {
        '9'
    } else if n == 10 {
        'a'
    } else if n == 11 {
        'b'
    } else if n == 12 {
        'c'
    } else if n == 13 {
        'd'
    } else if n == 14 {
        'e'
    } else {
        'f'
    }
}

/// The eight bytes of `bytes` from `k` on as one number.
fn word_at(bytes: &[u8; 32], k: usize) -> (w: u64)
    requires
        k + 8 <= 32,
    ensures
        w == be_word(bytes@, k as int),
{
    let b0: u64 = bytes[k] as u64;
    let b1: u64 = bytes[k + 1] as u64;
    let b2: u64 = bytes[k + 2] as u64;
    let b3: u64 = bytes[k + 3] as u64;
    let b4: u64 = bytes[k + 4] as u64;
    let b5: u64 = bytes[k + 5] as u64;
    let b6: u64 = bytes[k + 6] as u64;
    let b7: u64 = bytes[k + 7] as u64;
    (((((((b0 * 256 + b1) * 256 + b2) * 256 + b3) * 256 + b4) * 256 + b5) * 256 + b6) * 256 + b7)
}

impl Felt {
    #[verifier::type_invariant]
    spec fn canonical(self) -> bool {
        be_value(self.bytes@) < field_prime()
    }

    /// The 32 bytes of the number, most significant first.
    pub closed spec fn bytes(self) -> Seq<u8> {
        self.bytes@
    }

    /// The element that is the given number, for a number below the prime.
    pub closed spec fn of(n: nat) -> Felt {
        choose|f: Felt| be_value(f.bytes@) == n
    }

    /// The view is the number that the bytes denote.
    pub proof fn lemma_view(self)
        ensures
            self@ == be_value(self.bytes()),
            self.bytes().len() == 32,
    {
    }

    /// The element of a number below the prime is that number.
    pub proof fn lemma_of(n: nat)
        requires
            n < field_prime(),
        ensures
            Felt::of(n)@ == n,
    {
        lemma_bytes_of(n);
        let witness = Felt { bytes: bytes_of(n) };
        assert(be_value(witness.bytes@) == n);
    }

    /// Two elements that are the same number are the same element.
    pub proof fn lemma_same_number(self, other: Felt)
        requires
            self@ == other@,
        ensures
            self == other,
    {
        lemma_be_value_injective(self.bytes@, other.bytes@);
        assert(self.bytes == other.bytes);
    }

    /// An element is the element of its number.
    pub proof fn lemma_of_view(self)
        ensures
            Felt::of(self@) == self,
    {
        let f = Felt::of(self@);
        assert(be_value(self.bytes@) == self@);
        f.lemma_same_number(self);
    }

    /// The element with the given bytes, if they denote a number below the prime.
    pub fn from_bytes_be(bytes: &[u8; 32]) -> (r: Option<Felt>)
        ensures
            r.is_some() <==> be_value(bytes@) < field_prime(),
            r matches Some(f) ==> f.bytes() == bytes@ && f@ == be_value(bytes@),
    {
        let w0: u64 = word_at(bytes, 0);
        let w1: u64 = word_at(bytes, 8);
        let w2: u64 = word_at(bytes, 16);
        let w3: u64 = word_at(bytes, 24);
        if w0 < 0x0800_0000_0000_0011 || (w0 == 0x0800_0000_0000_0011 && w1 == 0 && w2 == 0 && w3
            == 0) {
            Some(Felt { bytes: *bytes })
        } else {
            None
        }
    }

    /// The bytes of the number, most significant first.
    pub fn to_bytes_be(&self) -> (r: [u8; 32])
        ensures
            r@ == self.bytes(),
            be_value(r@) == self@,
            self@ < field_prime(),
    {
        proof {
            use_type_invariant(self);
        }
        self.bytes
    }

    /// The element that is the given number.
    pub fn from_u64(v: u64) -> (r: Felt)
        ensures
            r@ == v,
    {
        let b7: u64 = v % 256;
        let q7: u64 = v / 256;
        let b6: u64 = q7 % 256;
        let q6: u64 = q7 / 256;
        let b5: u64 = q6 % 256;
        let q5: u64 = q6 / 256;
        let b4: u64 = q5 % 256;
        let q4: u64 = q5 / 256;
        let b3: u64 = q4 % 256;
        let q3: u64 = q4 / 256;
        let b2: u64 = q3 % 256;
        let q2: u64 = q3 / 256;
        let b1: u64 = q2 % 256;
        let b0: u64 = q2 / 256;
        assert(q2 == b0 * 256 + b1);
        assert(q3 == q2 * 256 + b2);
        assert(q4 == q3 * 256 + b3);
        assert(q5 == q4 * 256 + b4);
        assert(q6 == q5 * 256 + b5);
        assert(q7 == q6 * 256 + b6);
        assert(v == q7 * 256 + b7);
        assert(b0 < 256);
        let bytes: [u8; 32] = [
            0,
            0,
            0,
            0,
            0,
            0,
            0,
            0,
            0,
            0,
            0,
            0,
            0,
            0,
            0,
            0,
            0,
            0,
            0,
            0,
            0,
            0,
            0,
            0,
            b0 as u8,
            b1 as u8,
            b2 as u8,
            b3 as u8,
            b4 as u8,
            b5 as u8,
            b6 as u8,
            b7 as u8,
        ];
        assert(be_word(bytes@, 0) == 0);
        assert(be_word(bytes@, 8) == 0);
        assert(be_word(bytes@, 16) == 0);
        assert(be_word(bytes@, 24) == v) by {
            assert(bytes@[24] == b0 && bytes@[25] == b1 && bytes@[26] == b2 && bytes@[27] == b3);
            assert(bytes@[28] == b4 && bytes@[29] == b5 && bytes@[30] == b6 && bytes@[31] == b7);
        }
        Felt { bytes }
    }

    /// Whether the two elements are the same number.
    pub fn same(&self, other: &Felt) -> (r: bool)
        ensures
            r == (self.bytes() == other.bytes()),
            r == (self@ == other@),
    {
        let mut i: usize = 0;
        while i < 32
            invariant
                i <= 32,
                forall|j: int| 0 <= j < i ==> self.bytes@[j] == other.bytes@[j],
            decreases 32 - i,
        {
            if self.bytes[i] != other.bytes[i] {
                proof {
                    if be_value(self.bytes@) == be_value(other.bytes@) {
                        lemma_be_value_injective(self.bytes@, other.bytes@);
                    }
                }
                return false;
            }
            i = i + 1;
        }
        assert(self.bytes@ =~= other.bytes@);
        true
    }

    /// The product of the two elements in the field.
    pub fn mul(&self, rhs: &Felt) -> (r: Felt)
        ensures
            r@ == (self@ * rhs@) % field_prime(),
    {
        proof {
            use_type_invariant(self);
            use_type_invariant(rhs);
        }
        let bytes: [u8; 32] = field_mul(&self.bytes, &rhs.bytes);
        Felt { bytes }
    }

    /// The quotient of the two numbers, rounded down.
    pub fn floor_div(&self, rhs: &Felt) -> (r: Felt)
        requires
            rhs@ != 0,
        ensures
            r@ == self@ / rhs@,
    {
        proof {
            use_type_invariant(self);
            use_type_invariant(rhs);
        }
        let bytes: [u8; 32] = field_floor_div(&self.bytes, &rhs.bytes);
        assert(be_value(bytes@) < field_prime()) by (nonlinear_arith)
            requires
                be_value(bytes@) == be_value(self.bytes@) / be_value(rhs.bytes@),
                be_value(self.bytes@) < field_prime(),
                0 < be_value(rhs.bytes@),
        ;
        Felt { bytes }
    }

    /// The sum of the two elements in the field.
    pub fn add(&self, rhs: &Felt) -> (r: Felt)
        ensures
            r@ == (self@ + rhs@) % field_prime(),
    {
        proof {
            use_type_invariant(self);
            use_type_invariant(rhs);
        }
        let bytes: [u8; 32] = field_add(&self.bytes, &rhs.bytes);
        Felt { bytes }
    }

    /// Whether this number is at most the other.
    pub fn le(&self, other: &Felt) -> (r: bool)
        ensures
            r == (self@ <= other@),
    {
        let a0: u64 = word_at(&self.bytes, 0);
        let a1: u64 = word_at(&self.bytes, 8);
        let a2: u64 = word_at(&self.bytes, 16);
        let a3: u64 = word_at(&self.bytes, 24);
        let b0: u64 = word_at(&other.bytes, 0);
        let b1: u64 = word_at(&other.bytes, 8);
        let b2: u64 = word_at(&other.bytes, 16);
        let b3: u64 = word_at(&other.bytes, 24);
        if a0 != b0 {
            a0 < b0
        } else if a1 != b1 {
            a1 < b1
        } else if a2 != b2 {
            a2 < b2
        } else {
            a3 <= b3
        }
    }

    /// Whether the number is odd.
    pub fn is_odd(&self) -> (r: bool)
        ensures
            r == (self@ % 2 == 1),
    {
        let last: u8 = self.bytes[31];
        proof {
            let s = self.bytes@;
            let low = be_word(s, 24);
            let high = (be_word(s, 0) * 0x1_0000_0000_0000_0000 + be_word(s, 8))
                * 0x1_0000_0000_0000_0000 + be_word(s, 16);
            assert(be_value(s) == high * 0x1_0000_0000_0000_0000 + low);
            assert(low % 2 == s[31] as nat % 2);
            assert((high * 0x1_0000_0000_0000_0000 + low) % 2 == low % 2);
        }
        last % 2 == 1
    }

    /// The largest element but `k - 1`: the prime less `k`, for `k` from 1 to 3.
    pub(crate) fn prime_minus(k: u8) -> (r: Felt)
        requires
            1 <= k <= 3,
        ensures
            r@ == field_prime() - k,
    {
        let bytes: [u8; 32] = if k == 1 {
            [
                0x08, 0, 0, 0, 0, 0, 0, 0x11,
                0, 0, 0, 0, 0, 0, 0, 0,
                0, 0, 0, 0, 0, 0, 0, 0,
                0, 0, 0, 0, 0, 0, 0, 0,
            ]
        } else if k == 2 {
            [
                0x08, 0, 0, 0, 0, 0, 0, 0x10,
                0xff, 0xff, 0xff, 0xff, 0xff, 0xff, 0xff, 0xff,
                0xff, 0xff, 0xff, 0xff, 0xff, 0xff, 0xff, 0xff,
                0xff, 0xff, 0xff, 0xff, 0xff, 0xff, 0xff, 0xff,
            ]
        } else {
            [
                0x08, 0, 0, 0, 0, 0, 0, 0x10,
                0xff, 0xff, 0xff, 0xff, 0xff, 0xff, 0xff, 0xff,
                0xff, 0xff, 0xff, 0xff, 0xff, 0xff, 0xff, 0xff,
                0xff, 0xff, 0xff, 0xff, 0xff, 0xff, 0xff, 0xfe,
            ]
        };
        assert(be_word(bytes@, 0) == if k == 1 {
            0x0800_0000_0000_0011nat
        } else {
            0x0800_0000_0000_0010nat
        });
        assert(be_word(bytes@, 8) == if k == 1 {
            0nat
        } else {
            0xffff_ffff_ffff_ffffnat
        });
        assert(be_word(bytes@, 16) == be_word(bytes@, 8));
        assert(be_word(bytes@, 24) == if k == 1 {
            0nat
        } else if k == 2 {
            0xffff_ffff_ffff_ffffnat
        } else {
            0xffff_ffff_ffff_fffenat
        });
        Felt { bytes }
    }

    /// Whether the number is zero.
    pub fn is_zero(&self) -> (r: bool)
        ensures
            r == (self@ == 0),
    {
        let zero: Felt = Felt::from_u64(0);
        self.same(&zero)
    }

    /// The number as `0x` and 64 lower-case hexadecimal digits.
    pub fn to_hex_string(&self) -> (text: String)
        ensures
            text@ == hex_text(self.bytes()),
            text@.len() == 66,
    {
        let mut text: String = String::new();
        push_char(&mut text, '0');
        push_char(&mut text, 'x');
        let mut i: usize = 0;
        while i < 32
            invariant
                i <= 32,
                text@ == hex_text(self.bytes@.take(i as int)),
            decreases 32 - i,
        {
            let b: u8 = self.bytes[i];
            push_char(&mut text, hex_char(b / 16));
            push_char(&mut text, hex_char(b % 16));
            assert(text@ =~= hex_text(self.bytes@.take(i + 1)));
            i = i + 1;
        }
        assert(self.bytes@.take(32) =~= self.bytes@);
        text
    }
}

/// Two strings of 32 bytes that denote the same number are the same string.
pub proof fn lemma_be_value_injective(a: Seq<u8>, b: Seq<u8>)
    requires
        a.len() == 32,
        b.len() == 32,
        be_value(a) == be_value(b),
    ensures
        a =~= b,
{
    assert(be_word(a, 0) == be_word(b, 0) && be_word(a, 8) == be_word(b, 8) && be_word(a, 16)
        == be_word(b, 16) && be_word(a, 24) == be_word(b, 24));
    lemma_be_word_injective(a, b, 0);
    lemma_be_word_injective(a, b, 8);
    lemma_be_word_injective(a, b, 16);
    lemma_be_word_injective(a, b, 24);
}

proof fn lemma_be_word_injective(a: Seq<u8>, b: Seq<u8>, k: int)
    requires
        be_word(a, k) == be_word(b, k),
    ensures
        a[k] == b[k],
        a[k + 1] == b[k + 1],
        a[k + 2] == b[k + 2],
        a[k + 3] == b[k + 3],
        a[k + 4] == b[k + 4],
        a[k + 5] == b[k + 5],
        a[k + 6] == b[k + 6],
        a[k + 7] == b[k + 7],
{
    let a1 = a[k] as nat * 256 + a[k + 1] as nat;
    let b1 = b[k] as nat * 256 + b[k + 1] as nat;
    let a2 = a1 * 256 + a[k + 2] as nat;
    let b2 = b1 * 256 + b[k + 2] as nat;
    let a3 = a2 * 256 + a[k + 3] as nat;
    let b3 = b2 * 256 + b[k + 3] as nat;
    let a4 = a3 * 256 + a[k + 4] as nat;
    let b4 = b3 * 256 + b[k + 4] as nat;
    let a5 = a4 * 256 + a[k + 5] as nat;
    let b5 = b4 * 256 + b[k + 5] as nat;
    let a6 = a5 * 256 + a[k + 6] as nat;
    let b6 = b5 * 256 + b[k + 6] as nat;
    assert(be_word(a, k) == a6 * 256 + a[k + 7] as nat);
    assert(be_word(b, k) == b6 * 256 + b[k + 7] as nat);
    assert(a6 == b6 && a[k + 7] == b[k + 7]);
    assert(a5 == b5 && a[k + 6] == b[k + 6]);
    assert(a4 == b4 && a[k + 5] == b[k + 5]);
    assert(a3 == b3 && a[k + 4] == b[k + 4]);
    assert(a2 == b2 && a[k + 3] == b[k + 3]);
    assert(a1 == b1 && a[k + 2] == b[k + 2]);
}

/// The byte at place `i`, counted from the most significant, of the eight bytes of `w`.
spec fn word_byte(w: nat, i: int) -> u8 {
    if i == 0 {
        (w / 256 / 256 / 256 / 256 / 256 / 256 / 256 % 256) as u8
    } else if i == 1 {
        (w / 256 / 256 / 256 / 256 / 256 / 256 % 256) as u8
    } else if i == 2 {
        (w / 256 / 256 / 256 / 256 / 256 % 256) as u8
    } else if i == 3 {
        (w / 256 / 256 / 256 / 256 % 256) as u8
    } else if i == 4 {
        (w / 256 / 256 / 256 % 256) as u8
    } else if i == 5 {
        (w / 256 / 256 % 256) as u8
    } else if i == 6 {
        (w / 256 % 256) as u8
    } else if i == 7 {
        (w % 256) as u8
    } else {
        0u8
    }
}

/// The array with the eight bytes from `k` on replaced by those of `w`.
spec fn with_word(a: [u8; 32], k: int, w: nat) -> [u8; 32] {
    vstd::array::spec_array_update(vstd::array::spec_array_update(vstd::array::spec_array_update(vstd::array::spec_array_update(vstd::array::spec_array_update(vstd::array::spec_array_update(vstd::array::spec_array_update(vstd::array::spec_array_update(a, k + 0, word_byte(w, 0)), k + 1, word_byte(w, 1)), k + 2, word_byte(w, 2)), k + 3, word_byte(w, 3)), k + 4, word_byte(w, 4)), k + 5, word_byte(w, 5)), k + 6, word_byte(w, 6)), k + 7, word_byte(w, 7))
}

/// The 32 bytes that denote a number below 2^256, most significant first.
spec fn bytes_of(n: nat) -> [u8; 32] {
    let w3 = n % 0x1_0000_0000_0000_0000;
    let n1 = n / 0x1_0000_0000_0000_0000;
    let w2 = n1 % 0x1_0000_0000_0000_0000;
    let n2 = n1 / 0x1_0000_0000_0000_0000;
    let w1 = n2 % 0x1_0000_0000_0000_0000;
    let w0 = n2 / 0x1_0000_0000_0000_0000;
    with_word(
        with_word(
            with_word(
                with_word(vstd::array::spec_array_fill_for_copy_type::<u8, 32>(0u8), 0, w0),
                8,
                w1,
            ),
            16,
            w2,
        ),
        24,
        w3,
    )
}

proof fn lemma_with_word(a: [u8; 32], k: int, w: nat)
    requires
        k == 0 || k == 8 || k == 16 || k == 24,
        w < 0x1_0000_0000_0000_0000,
    ensures
        be_word(with_word(a, k, w)@, k) == w,
        forall|j: int| 0 <= j < 32 && !(k <= j < k + 8) ==> with_word(a, k, w)@[j] == a@[j],
{
    broadcast use vstd::array::group_array_axioms;

    let b7 = w % 256;
    let q7 = w / 256;
    let b6 = q7 % 256;
    let q6 = q7 / 256;
    let b5 = q6 % 256;
    let q5 = q6 / 256;
    let b4 = q5 % 256;
    let q4 = q5 / 256;
    let b3 = q4 % 256;
    let q3 = q4 / 256;
    let b2 = q3 % 256;
    let q2 = q3 / 256;
    let b1 = q2 % 256;
    let q1 = q2 / 256;
    let b0 = q1 % 256;
    assert(q1 < 256);
    assert(q1 == b0);
    assert(q2 == b0 * 256 + b1);
    assert(q3 == q2 * 256 + b2);
    assert(q4 == q3 * 256 + b3);
    assert(q5 == q4 * 256 + b4);
    assert(q6 == q5 * 256 + b5);
    assert(q7 == q6 * 256 + b6);
    assert(w == q7 * 256 + b7);
    let r = with_word(a, k, w)@;
    assert(r[k] == b0 && r[k + 1] == b1 && r[k + 2] == b2 && r[k + 3] == b3);
    assert(r[k + 4] == b4 && r[k + 5] == b5 && r[k + 6] == b6 && r[k + 7] == b7);
}

proof fn lemma_bytes_of(n: nat)
    requires
        n < field_prime(),
    ensures
        be_value(bytes_of(n)@) == n,
{
    let w3 = n % 0x1_0000_0000_0000_0000;
    let n1 = n / 0x1_0000_0000_0000_0000;
    let w2 = n1 % 0x1_0000_0000_0000_0000;
    let n2 = n1 / 0x1_0000_0000_0000_0000;
    let w1 = n2 % 0x1_0000_0000_0000_0000;
    let w0 = n2 / 0x1_0000_0000_0000_0000;
    assert(w0 < 0x1_0000_0000_0000_0000);
    let a0 = vstd::array::spec_array_fill_for_copy_type::<u8, 32>(0u8);
    let a1 = with_word(a0, 0, w0);
    let a2 = with_word(a1, 8, w1);
    let a3 = with_word(a2, 16, w2);
    let a4 = with_word(a3, 24, w3);
    lemma_with_word(a0, 0, w0);
    lemma_with_word(a1, 8, w1);
    lemma_with_word(a2, 16, w2);
    lemma_with_word(a3, 24, w3);
    assert(be_word(a2@, 0) == w0);
    assert(be_word(a3@, 0) == w0 && be_word(a3@, 8) == w1);
    assert(be_word(a4@, 0) == w0 && be_word(a4@, 8) == w1 && be_word(a4@, 16) == w2);
    assert(n1 == n2 * 0x1_0000_0000_0000_0000 + w2);
    assert(n == n1 * 0x1_0000_0000_0000_0000 + w3);
    assert(n2 == w0 * 0x1_0000_0000_0000_0000 + w1);
}

} // verus!
