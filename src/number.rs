//! Decimal numbers written with digits and at most one decimal point.
use vstd::prelude::*;
use vstd::string::StrSliceExecFns;
use vstd::string::StringExecFns;

verus! {

/// A decimal number: its digits with the point left out, and how many of
/// them stand after the point.
#[derive(Clone, Debug, PartialEq, Eq)]
pub struct Number {
    pub digits: String,
    pub scale: usize,
}

impl View for Number {
    type V = (Seq<char>, nat);

    open spec fn view(&self) -> (Seq<char>, nat) {
        (self.digits@, self.scale as nat)
    }
}

/// The view of an optional number.
pub open spec fn number_view(r: Option<Number>) -> Option<(Seq<char>, nat)> {
    match r {
        Some(n) => Some(n@),
        None => None,
    }
}

pub open spec fn is_digit(c: char) -> bool {
    '0' <= c && c <= '9'
}

pub open spec fn all_digits(s: Seq<char>) -> bool {
    forall|i: int| 0 <= i < s.len() ==> is_digit(#[trigger] s[i])
}

/// Whether `k` is the place of a point with digits on both sides of it.
pub open spec fn is_point_at(s: Seq<char>, k: int) -> bool {
    0 < k < s.len() - 1 && s[k] == '.' && all_digits(s.take(k)) && all_digits(s.skip(k + 1))
}

/// A decimal literal: one or more digits, optionally split by one point with
/// digits on both sides. Its digits without the point and the number of
/// digits after the point; `None` for any other text.
pub open spec fn decimal_of(s: Seq<char>) -> Option<(Seq<char>, nat)> {
    if s.len() > 0 && all_digits(s) {
        Some((s, 0))
    } else if exists|k: int| is_point_at(s, k) {
        let k = choose|k: int| is_point_at(s, k);
        Some((s.take(k) + s.skip(k + 1), (s.len() - k - 1) as nat))
    } else {
        None
    }
}

/// Whether `i` is the place of the first comma of `s`.
pub open spec fn is_first_comma(s: Seq<char>, i: int) -> bool {
    0 <= i < s.len() && s[i] == ',' && forall|j: int| 0 <= j < i ==> s[j] != ','
}

/// `s` with its first comma, if any, replaced by a point.
pub open spec fn first_comma_to_point(s: Seq<char>) -> Seq<char> {
    if exists|i: int| is_first_comma(s, i) {
        s.update(choose|i: int| is_first_comma(s, i), '.')
    } else {
        s
    }
}

/// Replaces the first comma of `s`, if any, with a point.
pub fn replace_first_comma(s: &str) -> (r: String)
    ensures
        r@ == first_comma_to_point(s@),
{
    let n = s.unicode_len();
    let mut i: usize = 0;
    while i < n
        invariant
            n == s@.len(),
            i <= n,
            forall|j: int| 0 <= j < i ==> s@[j] != ',',
        decreases n - i,
    {
        if s.get_char(i) == ',' {
            assert(is_first_comma(s@, i as int));
            let mut r = String::from_str(s.substring_char(0, i));
            r.append(".");
            r.append(s.substring_char(i + 1, n));
            proof {
                let k = choose|k: int| is_first_comma(s@, k);
                assert(k == i) by {
                    if k < i {
                        assert(s@[k] != ',');
                    } else if k > i {
                        assert(s@[i as int] != ',');
                    }
                }
                reveal_strlit(".");
                assert(r@ =~= s@.update(i as int, '.'));
            }
            return r;
        }
        i = i + 1;
    }
    String::from_str(s)
}

impl Number {
    /// Reads a decimal literal.
    pub fn from_string(s: String) -> (r: Option<Number>)
        ensures
            number_view(r) == decimal_of(s@),
    {
        let t = s.as_str();
        let n = t.unicode_len();
        if n == 0 {
            return None;
        }
        // Find the first character that is not a digit.
        let mut k: usize = 0;
        while k < n && is_digit_exec(t.get_char(k))
            invariant
                n == t@.len(),
                k <= n,
                all_digits(t@.take(k as int)),
            decreases n - k,
        {
            assert(t@.take(k as int + 1) =~= t@.take(k as int).push(t@[k as int]));
            k = k + 1;
        }
        if k == n {
            assert(t@.take(n as int) =~= t@);
            return Some(Number { digits: String::from_str(t), scale: 0 });
        }
        proof {
            assert(!is_digit(t@[k as int]));
            assert(!all_digits(t@));
        }
        if k == 0 || k + 1 >= n || t.get_char(k) != '.' {
            proof {
                assert forall|j: int| !is_point_at(t@, j) by {
                    if is_point_at(t@, j) {
                        if j < k {
                            assert(t@.take(k as int)[j] == t@[j]);
                        } else if j > k {
                            assert(t@.take(j)[k as int] == t@[k as int]);
                        }
                    }
                }
            }
            return None;
        }
        let mut j: usize = k + 1;
        while j < n && is_digit_exec(t.get_char(j))
            invariant
                n == t@.len(),
                k < j <= n,
                forall|q: int| k < q < j ==> is_digit(#[trigger] t@[q]),
            decreases n - j,
        {
            j = j + 1;
        }
        if j < n {
            proof {
                assert forall|p: int| !is_point_at(t@, p) by {
                    if is_point_at(t@, p) {
                        if p < k {
                            assert(t@.take(k as int)[p] == t@[p]);
                        } else if p > k {
                            assert(t@.take(p)[k as int] == t@[k as int]);
                        } else {
                            assert(t@.skip(p + 1)[j - p - 1] == t@[j as int]);
                        }
                    }
                }
            }
            return None;
        }
        proof {
            assert(all_digits(t@.skip(k + 1))) by {
                assert forall|q: int| 0 <= q < t@.skip(k + 1).len() implies is_digit(
                    #[trigger] t@.skip(k + 1)[q],
                ) by {
                    assert(t@.skip(k + 1)[q] == t@[k + 1 + q]);
                }
            }
            assert(is_point_at(t@, k as int));
            let c = choose|p: int| is_point_at(t@, p);
            assert(c == k) by {
                if c < k {
                    assert(t@.take(k as int)[c] == t@[c]);
                } else if c > k {
                    assert(t@.take(c)[k as int] == t@[k as int]);
                }
            }
        }
        let mut digits = String::from_str(t.substring_char(0, k));
        digits.append(t.substring_char(k + 1, n));
        assert(digits@ =~= t@.take(k as int) + t@.skip(k + 1));
        Some(Number { digits, scale: n - k - 1 })
    }
}

fn is_digit_exec(c: char) -> (r: bool)
    ensures
        r == is_digit(c),
{
    '0' <= c && c <= '9'
}

} // verus!
