//! Decimal parameter fields of control sequences: runs of ASCII digits
//! separated by semicolons, as they appear between the introducer and the
//! terminator of a numbered CSI sequence.

use vstd::prelude::*;

verus! {

/// The byte code of ';', the field separator.
pub const SEMICOLON: u8 = 59;

/// True for the ASCII digits '0' through '9'.
pub open spec fn is_ascii_digit(b: u8) -> bool {
    48 <= b <= 57
}

/// True when every byte of `s` is an ASCII digit.
pub open spec fn all_digits(s: Seq<u8>) -> bool {
    forall|i: int| 0 <= i < s.len() ==> is_ascii_digit(s[i])
}

/// The value of a run of ASCII digits read as a decimal numeral.
pub open spec fn digits_val(s: Seq<u8>) -> nat
    recommends
        all_digits(s),
    decreases s.len(),
{
    if s.len() == 0 {
        0
    } else {
        digits_val(s.drop_last()) * 10 + (s.last() - 48) as nat
    }
}

/// The value of a field as a `u16`: defined exactly when the field is a
/// nonempty run of digits whose value fits.
pub open spec fn parse_u16_digits(s: Seq<u8>) -> Option<u16> {
    if s.len() > 0 && all_digits(s) && digits_val(s) <= u16::MAX {
        Some(digits_val(s) as u16)
    } else {
        None
    }
}

/// The index of the first ';' of `s` at or after `from` and before `hi`,
/// or `hi` when there is none.
pub open spec fn field_end(s: Seq<u8>, from: int, hi: int) -> int
    recommends
        0 <= from <= hi <= s.len(),
    decreases hi - from,
{
    if from >= hi {
        hi
    } else if s[from] == SEMICOLON {
        from
    } else {
        field_end(s, from + 1, hi)
    }
}

/// The value of the field of `s` that starts at `lo` and runs to the first
/// ';' before `hi` (or to `hi`).
pub open spec fn field_value(s: Seq<u8>, lo: int, hi: int) -> Option<u16> {
    parse_u16_digits(s.subrange(lo, field_end(s, lo, hi)))
}

/// The value of the field that follows the first separator after `lo`,
/// when such a separator exists.
pub open spec fn second_field_value(s: Seq<u8>, lo: int, hi: int) -> Option<u16> {
    let fe = field_end(s, lo, hi);
    if fe < hi {
        field_value(s, fe + 1, hi)
    } else {
        None
    }
}

/// The value of the third semicolon-separated field after `lo`, when both
/// separators exist.
pub open spec fn third_field_value(s: Seq<u8>, lo: int, hi: int) -> Option<u16> {
    let fe = field_end(s, lo, hi);
    if fe < hi {
        second_field_value(s, fe + 1, hi)
    } else {
        None
    }
}

/// True when the stretch `[lo, hi)` of `s` holds a separator after its
/// first field, so that a second field exists at all.
pub open spec fn has_second_field(s: Seq<u8>, lo: int, hi: int) -> bool {
    field_end(s, lo, hi) < hi
}

/// The field end lies between `from` and `hi`.
pub proof fn lemma_field_end_bounds(s: Seq<u8>, from: int, hi: int)
    requires
        0 <= from <= hi <= s.len(),
    ensures
        from <= field_end(s, from, hi) <= hi,
    decreases hi - from,
{
    if from < hi && s[from] != SEMICOLON {
        lemma_field_end_bounds(s, from + 1, hi);
    }
}

/// As long as no separator has been seen, the field extends further.
pub proof fn lemma_field_end_past(s: Seq<u8>, lo: int, i: int, hi: int)
    requires
        0 <= lo <= i < hi <= s.len(),
        forall|j: int| lo <= j <= i ==> s[j] != SEMICOLON,
    ensures
        field_end(s, lo, hi) > i,
    decreases i - lo,
{
    if lo == i {
        lemma_field_end_bounds(s, lo + 1, hi);
    } else {
        lemma_field_end_past(s, lo + 1, i, hi);
    }
}

/// `field_end` is pinned down by what the bytes up to it look like.
pub proof fn lemma_field_end_at(s: Seq<u8>, lo: int, i: int, hi: int)
    requires
        0 <= lo <= i <= hi <= s.len(),
        forall|j: int| lo <= j < i ==> s[j] != SEMICOLON,
        i == hi || s[i] == SEMICOLON,
    ensures
        field_end(s, lo, hi) == i,
    decreases i - lo,
{
    if lo == i {
    } else {
        lemma_field_end_at(s, lo + 1, i, hi);
    }
}

/// Reads the decimal field of `s` that starts at `lo` and extends to the
/// first ';' before `hi` (or to `hi`).  Returns the value together with the
/// index of the byte that ended the field; returns `None` exactly when the
/// field is empty, holds a non-digit, or overflows a `u16`.
pub fn parse_field_u16(s: &[u8], lo: usize, hi: usize) -> (r: Option<(u16, usize)>)
    requires
        lo <= hi <= s@.len(),
    ensures
        match r {
            Some((v, e)) => {
                &&& field_value(s@, lo as int, hi as int) == Some(v)
                &&& e == field_end(s@, lo as int, hi as int)
                &&& lo <= e <= hi
            },
            None => field_value(s@, lo as int, hi as int) is None,
        },
{
    let ghost fe = field_end(s@, lo as int, hi as int);
    let mut i: usize = lo;
    let mut acc: u32 = 0;
    let mut overflowed = false;
    while i < hi && s[i] != SEMICOLON
        invariant
            lo <= i <= hi <= s@.len(),
            fe == field_end(s@, lo as int, hi as int),
            forall|j: int| lo <= j < i ==> is_ascii_digit(s@[j]),
            forall|j: int| lo <= j < i ==> s@[j] != SEMICOLON,
            acc <= 0xFFFF,
            !overflowed ==> acc == digits_val(s@.subrange(lo as int, i as int)),
            overflowed ==> digits_val(s@.subrange(lo as int, i as int)) > 0xFFFF,
            overflowed ==> all_digits(s@.subrange(lo as int, i as int)),
        decreases hi - i,
    {
        let b = s[i];
        if b < 48 || b > 57 {
            // A stray byte inside the field: the field is not a numeral.
            proof {
                lemma_field_end_past(s@, lo as int, i as int, hi as int);
                lemma_field_end_bounds(s@, lo as int, hi as int);
                let t = s@.subrange(lo as int, fe);
                assert(t[i - lo] == s@[i as int]);
                assert(!all_digits(t));
            }
            return None;
        }
        proof {
            let a = s@.subrange(lo as int, i as int);
            let b2 = s@.subrange(lo as int, i + 1);
            assert(b2.drop_last() =~= a);
            assert(digits_val(b2) == digits_val(a) * 10 + (b2.last() - 48) as nat);
        }
        if !overflowed {
            let next = acc * 10 + (b - 48) as u32;
            if next > 0xFFFF {
                overflowed = true;
            } else {
                acc = next;
            }
        } else {
            proof {
                let a = s@.subrange(lo as int, i as int);
                let b2 = s@.subrange(lo as int, i + 1);
                assert(digits_val(b2) >= digits_val(a));
            }
        }
        i += 1;
    }
    proof {
        lemma_field_end_at(s@, lo as int, i as int, hi as int);
    }
    let ghost t = s@.subrange(lo as int, i as int);
    if i == lo {
        // An empty field is not a numeral.
        return None;
    }
    if overflowed {
        return None;
    }
    proof {
        assert(acc == digits_val(t));
    }
    Some((acc as u16, i))
}

} // verus!
