//! Marshalling between native values and engine-typed script values.
//!
//! A [`ScriptValue`] is the bridge's picture of one engine value: a closed
//! set of variants with total extraction functions, so that a host function
//! never assumes a successful extraction. Function and object values stay
//! opaque; the bridge only carries their engine handles around.
//!
//! Listener ids cross the boundary as decimal strings, so the module also
//! holds a verified decimal codec for `u64` ids.

use vstd::prelude::*;
use vstd::string::StrSliceExecFns;
use vstd::string::StringExecFns;

verus! {

/// One engine value as seen from the host side of the bridge.
///
/// `Function` and `Object` carry the engine's handle for the value; the
/// bridge never looks inside them. `Str` and the scalar variants carry the
/// marshalled native value itself.
#[derive(Debug, PartialEq, Eq)]
pub enum ScriptValue {
    Bool(bool),
    Number(i64),
    Str(String),
    Function(u64),
    Object(u64),
    Undefined,
}

impl ScriptValue {
    /// An exact copy; `Str` duplicates the underlying string.
    pub fn dup(&self) -> (r: ScriptValue)
        ensures
            r == *self,
    {
        match self {
            ScriptValue::Bool(b) => ScriptValue::Bool(*b),
            ScriptValue::Number(n) => ScriptValue::Number(*n),
            ScriptValue::Str(s) => ScriptValue::Str(s.clone()),
            ScriptValue::Function(h) => ScriptValue::Function(*h),
            ScriptValue::Object(h) => ScriptValue::Object(*h),
            ScriptValue::Undefined => ScriptValue::Undefined,
        }
    }

    /// Total extraction of a string; `None` on every other variant.
    pub fn as_str(&self) -> (r: Option<&String>)
        ensures
            match *self {
                ScriptValue::Str(..) => r matches Some(s) && *s == self->Str_0,
                _ => r is None,
            },
    {
        match self {
            ScriptValue::Str(s) => Some(s),
            _ => None,
        }
    }

    /// Total extraction of a boolean; `None` on every other variant.
    pub fn as_bool(&self) -> (r: Option<bool>)
        ensures
            match *self {
                ScriptValue::Bool(b) => r == Some(b),
                _ => r is None,
            },
    {
        match self {
            ScriptValue::Bool(b) => Some(*b),
            _ => None,
        }
    }

    /// Total extraction of a number; `None` on every other variant.
    pub fn as_number(&self) -> (r: Option<i64>)
        ensures
            match *self {
                ScriptValue::Number(n) => r == Some(n),
                _ => r is None,
            },
    {
        match self {
            ScriptValue::Number(n) => Some(*n),
            _ => None,
        }
    }

    /// Total extraction of a function handle; `None` on every other variant.
    pub fn as_function(&self) -> (r: Option<u64>)
        ensures
            match *self {
                ScriptValue::Function(h) => r == Some(h),
                _ => r is None,
            },
    {
        match self {
            ScriptValue::Function(h) => Some(*h),
            _ => None,
        }
    }

    /// Whether this value is a callable function.
    pub fn is_function(&self) -> (r: bool)
        ensures
            r == (*self is Function),
    {
        match self {
            ScriptValue::Function(..) => true,
            _ => false,
        }
    }
}

/// What marshalling a native string into the engine produces.
pub open spec fn spec_marshal_string(s: String) -> ScriptValue {
    ScriptValue::Str(s)
}

/// What marshalling a script value back to a native string yields.
pub open spec fn spec_unmarshal_string(v: ScriptValue) -> Option<String> {
    match v {
        ScriptValue::Str(s) => Some(s),
        _ => None,
    }
}

/// Marshal a native string into a script value.
pub fn marshal_string(s: String) -> (r: ScriptValue)
    ensures
        r == spec_marshal_string(s),
{
    ScriptValue::Str(s)
}

/// Marshal a script value back into a native string, when it is one.
pub fn unmarshal_string(v: ScriptValue) -> (r: Option<String>)
    ensures
        r == spec_unmarshal_string(v),
{
    match v {
        ScriptValue::Str(s) => Some(s),
        _ => None,
    }
}

/// Round trip: marshalling a native string to a script value and
/// unmarshalling it again yields the original string, for every string,
/// the empty one and non-ASCII ones included.
pub proof fn lemma_string_round_trip(s: String)
    ensures
        spec_unmarshal_string(spec_marshal_string(s)) == Some(s),
{
}

/// Whether `c` is a decimal digit.
pub open spec fn spec_is_digit(c: char) -> bool {
    48 <= c as int <= 57
}

/// The numeric value of a decimal digit.
pub open spec fn spec_digit_val(c: char) -> int {
    c as int - 48
}

/// The digit character for a value below ten.
pub open spec fn spec_digit_char(d: int) -> char
    recommends
        0 <= d <= 9,
{
    if d == 0 {
        '0'
    } else if d == 1 {
        '1'
    } else if d == 2 {
        '2'
    } else if d == 3 {
        '3'
    } else if d == 4 {
        '4'
    } else if d == 5 {
        '5'
    } else if d == 6 {
        '6'
    } else if d == 7 {
        '7'
    } else if d == 8 {
        '8'
    } else {
        '9'
    }
}

/// The decimal rendering of a natural number, most significant digit first.
pub open spec fn spec_dec_string(n: nat) -> Seq<char>
    decreases n,
{
    if n < 10 {
        seq![spec_digit_char(n as int)]
    } else {
        spec_dec_string(n / 10).push(spec_digit_char((n % 10) as int))
    }
}

/// Whether every character of `s` is a decimal digit.
pub open spec fn spec_all_digits(s: Seq<char>) -> bool {
    forall|i: int| 0 <= i < s.len() ==> spec_is_digit(#[trigger] s[i])
}

/// The numeric value of a digit string, read as a decimal number.
pub open spec fn spec_dec_value(s: Seq<char>) -> int
    decreases s.len(),
{
    if s.len() == 0 {
        0
    } else {
        spec_dec_value(s.drop_last()) * 10 + spec_digit_val(s.last())
    }
}

/// The single-character string for a digit value.
fn digit_str(d: u64) -> (r: &'static str)
    requires
        d < 10,
    ensures
        r@ == seq![spec_digit_char(d as int)],
{
    let s: &'static str = if d == 0 {
        "0"
    } else if d == 1 {
        "1"
    } else if d == 2 {
        "2"
    } else if d == 3 {
        "3"
    } else if d == 4 {
        "4"
    } else if d == 5 {
        "5"
    } else if d == 6 {
        "6"
    } else if d == 7 {
        "7"
    } else if d == 8 {
        "8"
    } else {
        "9"
    };
    proof {
        reveal_strlit("0");
        reveal_strlit("1");
        reveal_strlit("2");
        reveal_strlit("3");
        reveal_strlit("4");
        reveal_strlit("5");
        reveal_strlit("6");
        reveal_strlit("7");
        reveal_strlit("8");
        reveal_strlit("9");
        assert(s@ =~= seq![spec_digit_char(d as int)]);
    }
    s
}

/// Render an id as a decimal string, for handing across the script boundary.
pub fn u64_to_dec(n: u64) -> (r: String)
    ensures
        r@ == spec_dec_string(n as nat),
    decreases n,
{
    if n < 10 {
        digit_str(n).to_owned()
    } else {
        let mut s = u64_to_dec(n / 10);
        s.append(digit_str(n % 10));
        proof {
            assert(s@ =~= spec_dec_string(n as nat));
        }
        s
    }
}

/// A digit string's value is never negative.
proof fn lemma_dec_value_nonneg(s: Seq<char>)
    requires
        spec_all_digits(s),
    ensures
        spec_dec_value(s) >= 0,
    decreases s.len(),
{
    if s.len() > 0 {
        assert(spec_all_digits(s.drop_last()));
        lemma_dec_value_nonneg(s.drop_last());
    }
}

/// Reading one more digit multiplies the prefix value by ten and adds it.
proof fn lemma_dec_value_step(s: Seq<char>, i: int)
    requires
        0 <= i < s.len(),
    ensures
        spec_dec_value(s.take(i + 1)) == spec_dec_value(s.take(i)) * 10 + spec_digit_val(s[i]),
{
    assert(s.take(i + 1).drop_last() =~= s.take(i));
    assert(s.take(i + 1).last() == s[i]);
}

/// A digit string's value only grows as more digits are read.
proof fn lemma_dec_value_take_le(s: Seq<char>, i: int)
    requires
        spec_all_digits(s),
        0 <= i <= s.len(),
    ensures
        spec_dec_value(s.take(i)) <= spec_dec_value(s),
    decreases s.len() - i,
{
    if i == s.len() {
        assert(s.take(i) =~= s);
    } else {
        lemma_dec_value_step(s, i);
        assert(spec_all_digits(s.take(i)));
        lemma_dec_value_nonneg(s.take(i));
        lemma_dec_value_take_le(s, i + 1);
    }
}

/// Parse a decimal string back into an id. Fails on the empty string, on a
/// non-digit character and on a value that does not fit in a `u64`.
pub fn parse_u64_dec(s: &str) -> (r: Option<u64>)
    ensures
        match r {
            Some(n) => s@.len() > 0 && spec_all_digits(s@) && spec_dec_value(s@) == n,
            None => s@.len() == 0 || !spec_all_digits(s@) || spec_dec_value(s@) > u64::MAX,
        },
{
    let len = s.unicode_len();
    if len == 0 {
        return None;
    }
    let mut acc: u64 = 0;
    let mut i: usize = 0;
    while i < len
        invariant
            len == s@.len(),
            0 < len,
            i <= len,
            spec_all_digits(s@.take(i as int)),
            acc == spec_dec_value(s@.take(i as int)),
        decreases len - i,
    {
        let c = s.get_char(i);
        let d: u64 = match c {
            '0' => 0,
            '1' => 1,
            '2' => 2,
            '3' => 3,
            '4' => 4,
            '5' => 5,
            '6' => 6,
            '7' => 7,
            '8' => 8,
            '9' => 9,
            _ => {
                return None;
            },
        };
        if acc > (u64::MAX - d) / 10 {
            proof {
                if spec_all_digits(s@) {
                    lemma_dec_value_step(s@, i as int);
                    assert(spec_dec_value(s@.take(i as int + 1)) > u64::MAX) by (nonlinear_arith)
                        requires
                            spec_dec_value(s@.take(i as int + 1)) == acc * 10 + d,
                            acc > (u64::MAX - d) / 10,
                            d <= 9,
                    ;
                    lemma_dec_value_take_le(s@, i as int + 1);
                }
            }
            return None;
        }
        proof {
            lemma_dec_value_step(s@, i as int);
            assert(acc * 10 + d <= u64::MAX) by (nonlinear_arith)
                requires
                    acc <= (u64::MAX - d) / 10,
                    d <= 9,
            ;
            assert(spec_all_digits(s@.take(i as int + 1)));
        }
        acc = acc * 10 + d;
        i = i + 1;
    }
    proof {
        assert(s@.take(len as int) =~= s@);
    }
    Some(acc)
}

/// The digit character of a value below ten is a digit with that value.
proof fn lemma_digit_char_val(d: int)
    requires
        0 <= d <= 9,
    ensures
        spec_is_digit(spec_digit_char(d)),
        spec_digit_val(spec_digit_char(d)) == d,
{
}

/// The decimal rendering of `n` is a non-empty digit string whose value is
/// `n` again.
pub proof fn lemma_dec_string_value(n: nat)
    ensures
        spec_dec_string(n).len() >= 1,
        spec_all_digits(spec_dec_string(n)),
        spec_dec_value(spec_dec_string(n)) == n,
    decreases n,
{
    if n < 10 {
        let s = spec_dec_string(n);
        lemma_digit_char_val(n as int);
        assert(s.drop_last() =~= Seq::<char>::empty());
        assert(s.last() == spec_digit_char(n as int));
        assert(spec_dec_value(s) == spec_dec_value(s.drop_last()) * 10 + spec_digit_val(s.last()));
        assert(spec_dec_value(s.drop_last()) == 0);
    } else {
        lemma_dec_string_value(n / 10);
        lemma_digit_char_val((n % 10) as int);
        let s = spec_dec_string(n);
        assert(s.drop_last() =~= spec_dec_string(n / 10));
        assert(s.last() == spec_digit_char((n % 10) as int));
        assert(spec_dec_value(s) == spec_dec_value(s.drop_last()) * 10 + spec_digit_val(s.last()));
        assert(spec_dec_value(s) == (n / 10) * 10 + (n % 10));
        assert((n / 10) * 10 + (n % 10) == n) by (nonlinear_arith);
        assert(forall|i: int|
            0 <= i < s.len() ==> spec_is_digit(#[trigger] s[i])) by {
            assert(forall|i: int|
                0 <= i < s.len() - 1 ==> s[i] == spec_dec_string(n / 10)[i]);
        }
    }
}

/// Round trip: rendering an id as a decimal string and parsing that string
/// back yields the original id.
pub proof fn lemma_dec_round_trip(n: u64)
    ensures
        spec_dec_value(spec_dec_string(n as nat)) == n,
        spec_all_digits(spec_dec_string(n as nat)),
        spec_dec_string(n as nat).len() > 0,
{
    lemma_dec_string_value(n as nat);
}

} // verus!
