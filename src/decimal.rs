//! Decimal numbers held as their text.
use vstd::prelude::*;

verus! {

/// A decimal number (a coordinate, a distance) held as the text that denotes it,
/// such as `-33.9249`. The text goes into request URLs unchanged.
#[derive(Debug, Clone, PartialEq, Eq, Default)]
pub struct Decimal {
    text: String,
}

/// Whether `s` denotes zero: an optional sign, then only the digit `0` and
/// decimal points, with at least one `0` (`0`, `-0`, `0.0`).
pub open spec fn denotes_zero(s: Seq<char>) -> bool {
    let body = unsigned_part(s);
    &&& exists|i: int| 0 <= i < body.len() && body[i] == '0'
    &&& forall|i: int| 0 <= i < body.len() ==> (body[i] == '0' || body[i] == '.')
}

/// `s` without its leading sign, if it has one.
pub open spec fn unsigned_part(s: Seq<char>) -> Seq<char> {
    if s.len() > 0 && (s[0] == '-' || s[0] == '+') {
        s.drop_first()
    } else {
        s
    }
}

impl View for Decimal {
    type V = Seq<char>;

    closed spec fn view(&self) -> Seq<char> {
        self.text@
    }
}

impl Decimal {
    /// Holds `text` as a decimal number.
    pub fn new(text: String) -> (r: Decimal)
        ensures
            r@ == text@,
    {
        Decimal { text }
    }

    /// The text of the number.
    pub fn as_str(&self) -> (r: &str)
        ensures
            r@ == self@,
    {
        self.text.as_str()
    }

    /// A second value equal to this one.
    pub fn duplicate(&self) -> (r: Decimal)
        ensures
            r == *self,
    {
        Decimal { text: self.text.clone() }
    }

    /// Whether the number is zero.
    pub fn is_zero(&self) -> (r: bool)
        ensures
            r == denotes_zero(self@),
    {
        let s = self.text.as_str();
        let n = s.unicode_len();
        let mut start: usize = 0;
        if n > 0 {
            let c = s.get_char(0);
            if c == '-' || c == '+' {
                start = 1;
            }
        }
        let ghost body = s@.subrange(start as int, n as int);
        assert(s@ == self@);
        assert(body == unsigned_part(s@));
        let mut seen_zero = false;
        let mut i: usize = start;
        while i < n
            invariant
                start <= i <= n,
                n == s@.len(),
                body == s@.subrange(start as int, n as int),
                body == unsigned_part(self@),
                seen_zero == exists|k: int| start <= k < i && s@[k] == '0',
                forall|k: int| start <= k < i ==> (s@[k] == '0' || s@[k] == '.'),
            decreases n - i,
        {
            let c = s.get_char(i);
            if c == '0' {
                seen_zero = true;
            } else if c != '.' {
                assert(body[i - start] == c);
                assert(!denotes_zero(self@));
                return false;
            }
            i = i + 1;
        }
        assert forall|j: int| 0 <= j < body.len() implies (body[j] == '0' || body[j] == '.') by {
            assert(body[j] == s@[j + start]);
        }
        if seen_zero {
            let ghost k = choose|k: int| start <= k < i && s@[k] == '0';
            assert(body[k - start] == '0');
            assert(denotes_zero(self@));
        } else {
            assert forall|j: int| 0 <= j < body.len() implies body[j] != '0' by {
                assert(body[j] == s@[j + start]);
            }
            assert(!denotes_zero(self@));
        }
        seen_zero
    }
}

} // verus!
