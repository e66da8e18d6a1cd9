use vstd::prelude::*;
use vstd::string::StringExecFns;

verus! {

/// The character of a decimal digit.
pub open spec fn digit_char(d: nat) -> char {
    if d == 0 {
        '0'
    } else if d == 1 {
        '1'
    } else if d == 2 {
        '2'
    } else if d == 3 {
        '3'
    } else if d == 4 {
        '4'
    } else if d == 5 {
        '5'
    } else if d == 6 {
        '6'
    } else if d == 7 {
        '7'
    } else if d == 8 {
        '8'
    } else {
        '9'
    }
}

/// The decimal form of a natural number, without leading zeros.
pub open spec fn decimal(n: nat) -> Seq<char>
    decreases n,
{
    if n < 10 {
        seq![digit_char(n)]
    } else {
        decimal(n / 10).push(digit_char(n % 10))
    }
}

/// The value of a decimal digit character.
pub open spec fn digit_value(c: char) -> int {
    c as int - '0' as int
}

/// The number a string of decimal digits reads as.
pub open spec fn read_decimal(s: Seq<char>) -> int
    decreases s.len(),
{
    if s.len() == 0 {
        0
    } else {
        10 * read_decimal(s.subrange(0, s.len() - 1)) + digit_value(s[s.len() - 1])
    }
}

proof fn lemma_digit_value(m: nat)
    requires
        m < 10,
    ensures
        digit_value(digit_char(m)) == m,
        '0' <= digit_char(m) <= '9',
{
}

/// The decimal form of a number is a non-empty string of the digits `0` to `9`
/// that reads back as the number.
pub proof fn law_decimal_reads_back(n: nat)
    ensures
        decimal(n).len() > 0,
        forall|i: int| 0 <= i < decimal(n).len() ==> '0' <= #[trigger] decimal(n)[i] <= '9',
        read_decimal(decimal(n)) == n,
    decreases n,
{
    if n < 10 {
        lemma_digit_value(n);
        let d = decimal(n);
        assert(d.subrange(0, 0) =~= Seq::<char>::empty());
        assert(read_decimal(d.subrange(0, 0)) == 0);
        assert(read_decimal(d) == 10 * read_decimal(d.subrange(0, 0)) + digit_value(d[0]));
    } else {
        law_decimal_reads_back(n / 10);
        lemma_digit_value(n % 10);
        let d = decimal(n);
        assert(d[d.len() - 1] == digit_char(n % 10));
        assert(n == 10 * (n / 10) + n % 10);
        assert(read_decimal(d) == 10 * read_decimal(d.subrange(0, d.len() - 1)) + digit_value(
            d[d.len() - 1],
        ));
        assert(d.subrange(0, d.len() - 1) =~= decimal(n / 10));
        assert forall|i: int| 0 <= i < d.len() implies '0' <= #[trigger] d[i] <= '9' by {
            if i < d.len() - 1 {
                assert(d[i] == decimal(n / 10)[i]);
            }
        }
    }
}

fn digit(d: u8) -> (s: &'static str)
    requires
        d < 10,
    ensures
        s@ == seq![digit_char(d as nat)],
{
    proof {
        reveal_strlit("0");
        reveal_strlit("1");
        reveal_strlit("2");
        reveal_strlit("3");
        reveal_strlit("4");
        reveal_strlit("5");
        reveal_strlit("6");
        reveal_strlit("7");
        reveal_strlit("8");
        reveal_strlit("9");
    }
    if d == 0 {
        "0"
    } else if d == 1 {
        "1"
    } else if d == 2 {
        "2"
    } else if d == 3 {
        "3"
    } else if d == 4 {
        "4"
    } else if d == 5 {
        "5"
    } else if d == 6 {
        "6"
    } else if d == 7 {
        "7"
    } else if d == 8 {
        "8"
    } else {
        "9"
    }
}

/// Appends the decimal form of `n`.
fn append_decimal(s: &mut String, n: u8)
    ensures
        final(s)@ == old(s)@ + decimal(n as nat),
{
    if n >= 100 {
        s.append(digit(n / 100));
        s.append(digit((n / 10) % 10));
        s.append(digit(n % 10));
        let ghost m: nat = (n / 10) as nat;
        assert(m / 10 == n / 100);
        assert(decimal((n / 100) as nat) == seq![digit_char((n / 100) as nat)]);
        assert(decimal(m) == decimal(m / 10).push(digit_char(m % 10)));
        assert(decimal(n as nat) == decimal(m).push(digit_char((n % 10) as nat)));
        assert(decimal(n as nat) =~= seq![
            digit_char((n / 100) as nat),
            digit_char(((n / 10) % 10) as nat),
            digit_char((n % 10) as nat),
        ]);
    } else if n >= 10 {
        s.append(digit(n / 10));
        s.append(digit(n % 10));
        assert(decimal((n / 10) as nat) == seq![digit_char((n / 10) as nat)]);
        assert(decimal(n as nat) == decimal((n / 10) as nat).push(digit_char((n % 10) as nat)));
        assert(decimal(n as nat) =~= seq![digit_char((n / 10) as nat), digit_char((n % 10) as nat)]);
    } else {
        s.append(digit(n));
    }
    assert(s@ =~= old(s)@ + decimal(n as nat));
}

/// The items joined by a separator.
pub open spec fn join(items: Seq<Seq<char>>, sep: Seq<char>) -> Seq<char>
    decreases items.len(),
{
    if items.len() == 0 {
        Seq::empty()
    } else if items.len() == 1 {
        items[0]
    } else {
        join(items.subrange(0, items.len() - 1), sep) + sep + items[items.len() - 1]
    }
}

pub open spec fn views(items: Seq<String>) -> Seq<Seq<char>> {
    items.map_values(|s: String| s@)
}

/// Appends the items joined by `", "`.
fn append_joined(s: &mut String, items: &Vec<String>)
    ensures
        final(s)@ == old(s)@ + join(views(items@), ", "@),
{
    let ghost start = s@;
    let ghost vs = views(items@);
    let mut i: usize = 0;
    assert(vs.subrange(0, 0) =~= Seq::<Seq<char>>::empty());
    while i < items.len()
        invariant
            i <= items.len(),
            vs.len() == items.len(),
            forall|k: int| 0 <= k < items.len() ==> vs[k] == #[trigger] items@[k]@,
            s@ == start + join(vs.subrange(0, i as int), ", "@),
        decreases items.len() - i,
    {
        let ghost before = s@;
        if i > 0 {
            s.append(", ");
        }
        s.append(items[i].as_str());
        assert(vs.subrange(0, i + 1).subrange(0, i as int) =~= vs.subrange(0, i as int));
        assert(vs.subrange(0, i + 1)[i as int] == items@[i as int]@);
        if i == 0 {
            assert(s@ =~= start + join(vs.subrange(0, 1), ", "@));
        } else {
            assert(s@ =~= start + join(vs.subrange(0, i + 1), ", "@));
        }
        i += 1;
    }
    assert(vs.subrange(0, items.len() as int) =~= vs);
}

/// The printed form of an `Enum` value, given the printed form of its payload.
pub fn enum_str(variant_index: u8, inner: Option<&str>) -> (r: String)
    ensures
        r@ == match inner {
            Some(v) => "Enum("@ + decimal(variant_index as nat) + ", "@ + v@ + ")"@,
            None => "Enum("@ + decimal(variant_index as nat) + ")"@,
        },
{
    let mut s = String::from_str("Enum(");
    append_decimal(&mut s, variant_index);
    if let Some(v) = inner {
        s.append(", ");
        s.append(v);
    }
    s.append(")");
    s
}

/// The representation of an `Enum` value, given that of its payload; a missing
/// payload shows as `None`.
pub fn enum_repr(variant_index: u8, inner: Option<&str>) -> (r: String)
    ensures
        r@ == "Enum("@ + decimal(variant_index as nat) + ", "@ + match inner {
            Some(v) => v@,
            None => "None"@,
        } + ")"@,
{
    let mut s = String::from_str("Enum(");
    append_decimal(&mut s, variant_index);
    s.append(", ");
    match inner {
        Some(v) => s.append(v),
        None => s.append("None"),
    }
    s.append(")");
    s
}

/// The representation of an explicitly present value.
pub fn some_repr(inner: &str) -> (r: String)
    ensures
        r@ == "Some("@ + inner@ + ")"@,
{
    let mut s = String::from_str("Some(");
    s.append(inner);
    s.append(")");
    s
}

/// The representation of a wrapper value: its class name and its value.
pub fn scalar_repr(class_name: &str, inner: &str) -> (r: String)
    ensures
        r@ == class_name@ + "("@ + inner@ + ")"@,
{
    let mut s = String::from_str(class_name);
    s.append("(");
    s.append(inner);
    s.append(")");
    s
}

/// The printed form of an array: its printed elements in brackets.
pub fn array_str(items: &Vec<String>) -> (r: String)
    ensures
        r@ == "["@ + join(views(items@), ", "@) + "]"@,
{
    let mut s = String::from_str("[");
    append_joined(&mut s, items);
    s.append("]");
    s
}

/// The representation of an array: its printed elements and its dtype's name.
pub fn array_repr(items: &Vec<String>, dtype_name: &str) -> (r: String)
    ensures
        r@ == "Array["@ + join(views(items@), ", "@) + ", dtype="@ + dtype_name@ + "]"@,
{
    let mut s = String::from_str("Array[");
    append_joined(&mut s, items);
    s.append(", dtype=");
    s.append(dtype_name);
    s.append("]");
    s
}

/// The printed form of a vector: its printed components in parentheses.
pub fn vec_str(components: &Vec<String>) -> (r: String)
    ensures
        r@ == "("@ + join(views(components@), ", "@) + ")"@,
{
    let mut s = String::from_str("(");
    append_joined(&mut s, components);
    s.append(")");
    s
}

/// The representation of a vector: class name, components and dtype name.
pub fn vec_repr(class_name: &str, components: &Vec<String>, dtype_name: &str) -> (r: String)
    ensures
        r@ == class_name@ + "("@ + join(views(components@), ", "@) + ", dtype="@ + dtype_name@
            + ")"@,
{
    let mut s = String::from_str(class_name);
    s.append("(");
    append_joined(&mut s, components);
    s.append(", dtype=");
    s.append(dtype_name);
    s.append(")");
    s
}

} // verus!
