//! Canvas and participant identifiers, and the text form of a canvas id:
//! the prefix `wall_` followed by 64 lowercase hexadecimal digits.

use vstd::prelude::*;

use crate::text::push_char;

verus! {

/// Identity of one canvas: 32 random bytes.
#[derive(Debug, Clone, Copy, PartialEq, Eq, Hash)]
pub struct WallId(pub [u8; 32]);

/// Identity of one participant within a canvas.
#[derive(Debug, Clone, Copy, PartialEq, Eq, Hash, Structural)]
pub struct SessionId(pub u32);

/// The text was not a well-formed canvas id.
#[derive(Debug, Clone, Copy, PartialEq, Eq, Structural)]
pub struct InvalidWallId;

pub const WALL_ID_TEXT_LEN: usize = 69;

pub open spec fn wall_prefix() -> Seq<char> {
    seq!['w', 'a', 'l', 'l', '_']
}

/// The lowercase hexadecimal digit of a value below 16.
pub open spec fn hex_digit(n: int) -> char {
    if n < 10 {
        ((n + 48) as u8) as char
    } else {
        ((n + 87) as u8) as char
    }
}

/// The digit at position `i` of the hexadecimal form of `bytes`, high nibble first.
pub open spec fn nibble_at(bytes: Seq<u8>, i: int) -> int {
    if i % 2 == 0 {
        bytes[i / 2] as int / 16
    } else {
        bytes[i / 2] as int % 16
    }
}

pub open spec fn hex_text(bytes: Seq<u8>) -> Seq<char> {
    Seq::new(2 * bytes.len(), |i: int| hex_digit(nibble_at(bytes, i)))
}

/// The text form of the id made of `bytes`.
pub open spec fn wall_id_text(bytes: Seq<u8>) -> Seq<char> {
    wall_prefix() + hex_text(bytes)
}

proof fn lemma_hex_digit_injective(a: int, b: int)
    requires
        0 <= a < 16,
        0 <= b < 16,
        hex_digit(a) == hex_digit(b),
    ensures
        a == b,
{
}

/// Two byte strings of one length with the same text form are equal.
pub proof fn lemma_wall_id_text_injective(a: Seq<u8>, b: Seq<u8>)
    requires
        a.len() == b.len(),
        wall_id_text(a) == wall_id_text(b),
    ensures
        a == b,
{
    assert forall|k: int| 0 <= k < a.len() implies a[k] == b[k] by {
        assert(wall_id_text(a)[5 + 2 * k] == hex_text(a)[2 * k]);
        assert(wall_id_text(b)[5 + 2 * k] == hex_text(b)[2 * k]);
        assert(wall_id_text(a)[5 + 2 * k + 1] == hex_text(a)[2 * k + 1]);
        assert(wall_id_text(b)[5 + 2 * k + 1] == hex_text(b)[2 * k + 1]);
        assert(nibble_at(a, 2 * k) == a[k] as int / 16);
        assert(nibble_at(b, 2 * k) == b[k] as int / 16);
        assert(nibble_at(a, 2 * k + 1) == a[k] as int % 16);
        assert(nibble_at(b, 2 * k + 1) == b[k] as int % 16);
        lemma_hex_digit_injective(a[k] as int / 16, b[k] as int / 16);
        lemma_hex_digit_injective(a[k] as int % 16, b[k] as int % 16);
    }
    assert(a =~= b);
}

fn hex_char(n: u8) -> (c: char)
    requires
        n < 16,
    ensures
        c == hex_digit(n as int),
{
    if n < 10 {
        (n + 48) as char
    } else {
        (n + 87) as char
    }
}

/// The value of a lowercase hexadecimal digit given as an ASCII byte.
fn hex_value(b: u8) -> (r: Option<u8>)
    ensures
        match r {
            Some(v) => v < 16 && hex_digit(v as int) == b as char,
            None => forall|v: int| 0 <= v < 16 ==> hex_digit(v) != b as char,
        },
{
    if 48 <= b && b <= 57 {
        Some(b - 48)
    } else if 97 <= b && b <= 102 {
        Some(b - 87)
    } else {
        None
    }
}

impl WallId {
    pub open spec fn view(&self) -> Seq<u8> {
        self.0@
    }

    /// The id made of the given random bytes.
    pub fn new(bytes: [u8; 32]) -> (r: WallId)
        ensures
            r@ == bytes@,
    {
        WallId(bytes)
    }

    /// The text form: `wall_` and two lowercase hexadecimal digits per byte.
    pub fn format(&self) -> (r: String)
        ensures
            r@ == wall_id_text(self@),
    {
        let mut out = String::new();
        push_char(&mut out, 'w');
        push_char(&mut out, 'a');
        push_char(&mut out, 'l');
        push_char(&mut out, 'l');
        push_char(&mut out, '_');
        let mut k: usize = 0;
        while k < 32
            invariant
                0 <= k <= 32,
                self@.len() == 32,
                out@ == wall_prefix() + hex_text(self@.take(k as int)),
            decreases 32 - k,
        {
            let b: u8 = self.0[k];
            let hi = hex_char(b / 16);
            let lo = hex_char(b % 16);
            proof {
                let t = self@.take(k as int);
                let t2 = self@.take(k as int + 1);
                assert(t2 =~= t.push(b));
                assert(hex_text(t2) =~= hex_text(t).push(hi).push(lo)) by {
                    assert forall|i: int| 0 <= i < 2 * t.len() implies nibble_at(t2, i)
                        == nibble_at(t, i) by {
                        assert(i / 2 < t.len());
                    }
                }
            }
            push_char(&mut out, hi);
            push_char(&mut out, lo);
            k = k + 1;
        }
        assert(self@.take(32) =~= self@);
        out
    }

    /// Reads the text form back; any other text is refused.
    pub fn parse(s: &str) -> (r: Result<WallId, InvalidWallId>)
        ensures
            match r {
                Ok(w) => s@ == wall_id_text(w@),
                Err(_) => forall|w: WallId| s@ != wall_id_text(#[trigger] w@),
            },
    {
        if !s.is_ascii() {
            proof {
                assert forall|w: WallId| s@ != wall_id_text(#[trigger] w@) by {
                    if s@ == wall_id_text(w@) {
                        assert(vstd::string::is_ascii(s)) by {
                            assert forall|i: int| 0 <= i < s@.len() implies (s@[i] as u32) < 128 by {
                                if i >= 5 {
                                    assert(s@[i] == hex_digit(nibble_at(w@, i - 5)));
                                }
                            }
                        }
                    }
                }
            }
            return Err(InvalidWallId);
        }
        let b = s.as_bytes();
        proof {
            vstd::string::is_ascii_spec_bytes(s);
            assert forall|i: int| 0 <= i < s@.len() implies s@[i] == #[trigger] b@[i] as char by {
                assert(b@[i] == s@[i] as u8);
            }
        }
        if b.len() != WALL_ID_TEXT_LEN {
            return Err(InvalidWallId);
        }
        if !(b[0] == 119 && b[1] == 97 && b[2] == 108 && b[3] == 108 && b[4] == 95) {
            proof {
                assert forall|w: WallId| s@ != wall_id_text(#[trigger] w@) by {
                    if s@ == wall_id_text(w@) {
                        assert(s@[0] == 'w' && s@[1] == 'a' && s@[2] == 'l' && s@[3] == 'l' && s@[4] == '_');
                    }
                }
            }
            return Err(InvalidWallId);
        }
        let mut out: [u8; 32] = [0u8; 32];
        let mut k: usize = 0;
        while k < 32
            invariant
                0 <= k <= 32,
                b@.len() == 69,
                s@.len() == 69,
                forall|i: int| 0 <= i < 69 ==> s@[i] == #[trigger] b@[i] as char,
                out@.len() == 32,
                forall|j: int| 0 <= j < 2 * k ==> s@[5 + j] == hex_digit(nibble_at(out@, j)),
            decreases 32 - k,
        {
            let hi = hex_value(b[5 + 2 * k]);
            let lo = hex_value(b[6 + 2 * k]);
            match (hi, lo) {
                (Some(h), Some(l)) => {
                    let ghost before = out@;
                    out[k] = h * 16 + l;
                    assert forall|j: int| 0 <= j < 2 * k + 2 implies s@[5 + j] == hex_digit(
                        nibble_at(out@, j),
                    ) by {
                        if j < 2 * k {
                            assert(nibble_at(out@, j) == nibble_at(before, j));
                        }
                    }
                },
                _ => {
                    proof {
                        let p: int = if hi is None { 5 + 2 * k } else { 6 + 2 * k };
                        assert forall|w: WallId| s@ != wall_id_text(#[trigger] w@) by {
                            if s@ == wall_id_text(w@) {
                                assert(s@[p] == hex_digit(nibble_at(w@, p - 5)));
                            }
                        }
                    }
                    return Err(InvalidWallId);
                },
            }
            k = k + 1;
        }
        let w = WallId(out);
        assert(s@ =~= wall_id_text(w@));
        Ok(w)
    }
}

/// Reading back the text form of an id gives the same id.
pub proof fn lemma_wall_id_round_trip(w: WallId, t: Seq<char>, r: Result<WallId, InvalidWallId>)
    requires
        t == wall_id_text(w@),
        match r {
            Ok(v) => t == wall_id_text(v@),
            Err(_) => forall|v: WallId| t != wall_id_text(#[trigger] v@),
        },
    ensures
        r == Ok::<WallId, InvalidWallId>(w),
{
    match r {
        Ok(v) => {
            lemma_wall_id_text_injective(v@, w@);
            assert(v.0@ =~= w.0@);
            assert(v.0 == w.0);
        },
        Err(_) => {
            assert(t != wall_id_text(w@));
        },
    }
}

} // verus!
