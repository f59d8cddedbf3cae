//! Record identities: ninety-six bits, written as twenty-four hexadecimal digits.

use vstd::prelude::*;

verus! {

/// The identity of a stored record: three 32-bit words, most significant first.
#[derive(Clone, Copy, Debug, PartialEq, Eq, Structural, Hash)]
pub struct ObjectId {
    pub hi: u32,
    pub mid: u32,
    pub lo: u32,
}

/// Sixteen to the power `n`.
pub open spec fn pow16(n: nat) -> nat
    decreases n,
{
    if n == 0 {
        1
    } else {
        16 * pow16((n - 1) as nat)
    }
}

/// The lower-case hexadecimal digit that stands for `d`, for `d < 16`.
pub open spec fn digit_char(d: nat) -> char {
    if d < 10 {
        (48 + d) as char
    } else {
        (87 + d) as char
    }
}

/// The value of a hexadecimal digit of either case, or `None` for any other character.
pub open spec fn digit_value(c: char) -> Option<nat> {
    let n = c as nat;
    if 48 <= n <= 57 {
        Some((n - 48) as nat)
    } else if 97 <= n <= 102 {
        Some((n - 87) as nat)
    } else if 65 <= n <= 70 {
        Some((n - 55) as nat)
    } else {
        None
    }
}

/// The `n` least significant hexadecimal digits of `v`, most significant first.
pub open spec fn hex_digits(v: nat, n: nat) -> Seq<char>
    decreases n,
{
    if n == 0 {
        Seq::empty()
    } else {
        hex_digits(v / 16, (n - 1) as nat).push(digit_char(v % 16))
    }
}

/// Whether every character of `s` is a hexadecimal digit.
pub open spec fn all_hex(s: Seq<char>) -> bool {
    forall|i: int| 0 <= i < s.len() ==> (#[trigger] digit_value(s[i])) is Some
}

/// The number that the digits of `s` write, read most significant first.
pub open spec fn hex_value(s: Seq<char>) -> nat
    decreases s.len(),
{
    if s.len() == 0 {
        0
    } else {
        match digit_value(s.last()) {
            Some(d) => hex_value(s.drop_last()) * 16 + d,
            None => hex_value(s.drop_last()) * 16,
        }
    }
}

/// What `parse_str` reads from `s`: an identity for exactly twenty-four
/// hexadecimal digits, nothing for any other text.
pub open spec fn parse_spec(s: Seq<char>) -> Option<ObjectId> {
    if s.len() == 24 && all_hex(s) {
        Some(
            ObjectId {
                hi: hex_value(s.subrange(0, 8)) as u32,
                mid: hex_value(s.subrange(8, 16)) as u32,
                lo: hex_value(s.subrange(16, 24)) as u32,
            },
        )
    } else {
        None
    }
}

/// `hex_digits` writes exactly `n` characters, each a hexadecimal digit.
pub proof fn lemma_hex_digits_shape(v: nat, n: nat)
    ensures
        hex_digits(v, n).len() == n,
        all_hex(hex_digits(v, n)),
    decreases n,
{
    if n > 0 {
        lemma_hex_digits_shape(v / 16, (n - 1) as nat);
        let s = hex_digits(v, n);
        let d = v % 16;
        assert(digit_value(digit_char(d)) == Some(d));
        assert forall|i: int| 0 <= i < s.len() implies (#[trigger] digit_value(s[i])) is Some by {
            if i < n - 1 {
                assert(s[i] == hex_digits(v / 16, (n - 1) as nat)[i]);
            }
        }
    }
}

/// Reading back the `n` digits of a number below `16^n` gives the number.
pub proof fn lemma_hex_value_of_digits(v: nat, n: nat)
    requires
        v < pow16(n),
    ensures
        hex_value(hex_digits(v, n)) == v,
    decreases n,
{
    if n > 0 {
        let rest = hex_digits(v / 16, (n - 1) as nat);
        let d = v % 16;
        let s = hex_digits(v, n);
        lemma_hex_digits_shape(v / 16, (n - 1) as nat);
        lemma_hex_value_of_digits(v / 16, (n - 1) as nat);
        assert(s.last() == digit_char(d));
        assert(s.drop_last() =~= rest);
        assert(digit_value(digit_char(d)) == Some(d));
    }
}

/// A number of `n` hexadecimal digits is below `16^n`.
pub proof fn lemma_hex_value_bound(s: Seq<char>)
    ensures
        hex_value(s) < pow16(s.len()),
    decreases s.len(),
{
    if s.len() > 0 {
        lemma_hex_value_bound(s.drop_last());
    }
}

/// Sixteen to the power eight is two to the power thirty-two.
pub proof fn lemma_pow16_8()
    ensures
        pow16(8) == 0x1_0000_0000,
{
    reveal_with_fuel(pow16, 9);
}

impl ObjectId {
    /// The twenty-four lower-case hexadecimal digits that write this identity.
    pub open spec fn hex(self) -> Seq<char> {
        hex_digits(self.hi as nat, 8) + hex_digits(self.mid as nat, 8) + hex_digits(
            self.lo as nat,
            8,
        )
    }

    /// Writes the identity as twenty-four lower-case hexadecimal digits.
    pub fn to_hex(&self) -> (r: String)
        ensures
            r@ == self.hex(),
    {
        let mut out = String::new();
        push_word(&mut out, self.hi, 8);
        push_word(&mut out, self.mid, 8);
        push_word(&mut out, self.lo, 8);
        out
    }

    /// Reads an identity from twenty-four hexadecimal digits of either case.
    pub fn parse_str(s: &str) -> (r: Option<ObjectId>)
        ensures
            r == parse_spec(s@),
    {
        if s.unicode_len() != 24 {
            return None;
        }
        let hi = match read_word(s, 0) {
            Some(w) => w,
            None => {
                return None;
            },
        };
        let mid = match read_word(s, 8) {
            Some(w) => w,
            None => {
                return None;
            },
        };
        let lo = match read_word(s, 16) {
            Some(w) => w,
            None => {
                return None;
            },
        };
        proof {
            assert forall|i: int| 0 <= i < s@.len() implies (#[trigger] digit_value(s@[i])) is Some by {
                if i < 8 {
                    assert(s@[i] == s@.subrange(0, 8)[i]);
                } else if i < 16 {
                    assert(s@[i] == s@.subrange(8, 16)[i - 8]);
                } else {
                    assert(s@[i] == s@.subrange(16, 24)[i - 16]);
                }
            }
        }
        Some(ObjectId { hi, mid, lo })
    }

    /// Builds an identity from its twelve bytes, most significant first.
    pub fn from_bytes(bytes: [u8; 12]) -> (r: ObjectId)
        ensures
            r == Self::of_bytes(bytes@),
    {
        ObjectId {
            hi: word_of(bytes[0], bytes[1], bytes[2], bytes[3]),
            mid: word_of(bytes[4], bytes[5], bytes[6], bytes[7]),
            lo: word_of(bytes[8], bytes[9], bytes[10], bytes[11]),
        }
    }

    /// The identity that twelve bytes write, most significant first.
    pub open spec fn of_bytes(b: Seq<u8>) -> ObjectId {
        ObjectId {
            hi: word_value(b[0], b[1], b[2], b[3]) as u32,
            mid: word_value(b[4], b[5], b[6], b[7]) as u32,
            lo: word_value(b[8], b[9], b[10], b[11]) as u32,
        }
    }

    /// The twelve bytes of the identity, most significant first.
    pub fn bytes(&self) -> (r: [u8; 12])
        ensures
            Self::of_bytes(r@) == *self,
    {
        let a = word_bytes(self.hi);
        let b = word_bytes(self.mid);
        let c = word_bytes(self.lo);
        [a.0, a.1, a.2, a.3, b.0, b.1, b.2, b.3, c.0, c.1, c.2, c.3]
    }
}

/// `ObjectId::new` of the BSON library, as its twelve bytes: a new identity made
/// of the time, a value drawn once per process and a counter. Nothing is
/// claimed of the bytes.
#[verifier::external_body]
fn fresh_bytes() -> [u8; 12] {
    mongodb::bson::oid::ObjectId::new().bytes()
}

/// A new identity. That it is in use nowhere is for the store to check.
pub(crate) fn fresh_id() -> ObjectId {
    ObjectId::from_bytes(fresh_bytes())
}

/// The 32-bit number whose bytes are `a b c d`, most significant first.
pub open spec fn word_value(a: u8, b: u8, c: u8, d: u8) -> nat {
    (a as nat) * 0x100_0000 + (b as nat) * 0x1_0000 + (c as nat) * 0x100 + (d as nat)
}

fn word_of(a: u8, b: u8, c: u8, d: u8) -> (r: u32)
    ensures
        r == word_value(a, b, c, d),
{
    let a32: u32 = a as u32;
    let b32: u32 = b as u32;
    let c32: u32 = c as u32;
    let d32: u32 = d as u32;
    a32 * 0x100_0000 + b32 * 0x1_0000 + c32 * 0x100 + d32
}

fn word_bytes(w: u32) -> (r: (u8, u8, u8, u8))
    ensures
        word_value(r.0, r.1, r.2, r.3) == w,
{
    let a: u32 = w / 0x100_0000;
    let b: u32 = (w / 0x1_0000) % 0x100;
    let c: u32 = (w / 0x100) % 0x100;
    let d: u32 = w % 0x100;
    (a as u8, b as u8, c as u8, d as u8)
}

/// Appends one character to a string (`String::push`).
#[verifier::external_body]
fn push_char(s: &mut String, c: char)
    ensures
        final(s)@ == old(s)@.push(c),
{
    s.push(c)
}

fn digit_of(d: u32) -> (c: char)
    requires
        d < 16,
    ensures
        c == digit_char(d as nat),
{
    if d < 10 {
        ((48 + d) as u8) as char
    } else {
        ((87 + d) as u8) as char
    }
}

fn push_word(out: &mut String, v: u32, n: u32)
    ensures
        final(out)@ == old(out)@ + hex_digits(v as nat, n as nat),
    decreases n,
{
    if n > 0 {
        push_word(out, v / 16, n - 1);
        push_char(out, digit_of(v % 16));
        assert(out@ =~= old(out)@ + hex_digits(v as nat, n as nat));
    } else {
        assert(out@ =~= old(out)@ + hex_digits(v as nat, n as nat));
    }
}

fn value_of(c: char) -> (r: Option<u32>)
    ensures
        match r {
            Some(d) => digit_value(c) == Some(d as nat) && d < 16,
            None => digit_value(c) is None,
        },
{
    let n: u32 = c as u32;
    if 48 <= n && n <= 57 {
        Some(n - 48)
    } else if 97 <= n && n <= 102 {
        Some(n - 87)
    } else if 65 <= n && n <= 70 {
        Some(n - 55)
    } else {
        None
    }
}

/// Reads the eight digits of `s` that start at `from`.
fn read_word(s: &str, from: usize) -> (r: Option<u32>)
    requires
        from <= 16,
        from + 8 <= s@.len(),
    ensures
        match r {
            Some(w) => all_hex(s@.subrange(from as int, from + 8)) && w == hex_value(
                s@.subrange(from as int, from + 8),
            ),
            None => !all_hex(s@.subrange(from as int, from + 8)),
        },
{
    let ghost word = s@.subrange(from as int, from + 8);
    let mut acc: u32 = 0;
    let mut i: usize = 0;
    while i < 8
        invariant
            i <= 8,
            from <= 16,
            from + 8 <= s@.len(),
            word == s@.subrange(from as int, from + 8),
            all_hex(word.take(i as int)),
            acc == hex_value(word.take(i as int)),
        decreases 8 - i,
    {
        let c = s.get_char(from + i);
        assert(c == word[i as int]);
        match value_of(c) {
            Some(d) => {
                proof {
                    let before = word.take(i as int);
                    let after = word.take(i + 1);
                    assert(after.drop_last() =~= before);
                    assert(after.last() == c);
                    lemma_hex_value_bound(before);
                    lemma_hex_value_bound(after);
                    lemma_pow16_8();
                    lemma_pow16_monotone(after.len(), 8);
                    assert forall|k: int| 0 <= k < after.len() implies (#[trigger] digit_value(
                        after[k],
                    )) is Some by {
                        if k < i {
                            assert(after[k] == before[k]);
                        }
                    }
                }
                acc = acc * 16 + d;
            },
            None => {
                return None;
            },
        }
        i += 1;
    }
    assert(word.take(8) =~= word);
    Some(acc)
}

/// A larger exponent gives no smaller power.
pub proof fn lemma_pow16_monotone(a: nat, b: nat)
    requires
        a <= b,
    ensures
        pow16(a) <= pow16(b),
    decreases b,
{
    if a < b {
        lemma_pow16_monotone(a, (b - 1) as nat);
    }
}

/// Reading what `to_hex` wrote gives the identity back.
pub proof fn lemma_parse_hex_round_trip(id: ObjectId)
    ensures
        id.hex().len() == 24,
        parse_spec(id.hex()) == Some(id),
{
    let a = hex_digits(id.hi as nat, 8);
    let b = hex_digits(id.mid as nat, 8);
    let c = hex_digits(id.lo as nat, 8);
    let s = id.hex();
    lemma_pow16_8();
    lemma_hex_digits_shape(id.hi as nat, 8);
    lemma_hex_digits_shape(id.mid as nat, 8);
    lemma_hex_digits_shape(id.lo as nat, 8);
    lemma_hex_value_of_digits(id.hi as nat, 8);
    lemma_hex_value_of_digits(id.mid as nat, 8);
    lemma_hex_value_of_digits(id.lo as nat, 8);
    assert(s.subrange(0, 8) =~= a);
    assert(s.subrange(8, 16) =~= b);
    assert(s.subrange(16, 24) =~= c);
    assert forall|i: int| 0 <= i < s.len() implies (#[trigger] digit_value(s[i])) is Some by {
        if i < 8 {
            assert(s[i] == a[i]);
        } else if i < 16 {
            assert(s[i] == b[i - 8]);
        } else {
            assert(s[i] == c[i - 16]);
        }
    }
}

} // verus!
