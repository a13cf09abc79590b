use vstd::prelude::*;

verus! {

/// Whether `b` is an ASCII decimal digit.
pub open spec fn is_digit(b: u8) -> bool {
    48 <= b <= 57
}

/// The number written by the decimal digits `s`, most significant first.
pub open spec fn decimal_value(s: Seq<u8>) -> int
    decreases s.len(),
{
    if s.len() == 0 {
        0
    } else {
        decimal_value(s.drop_last()) * 10 + (s.last() - 48)
    }
}

/// Whether `s` is a non-empty run of decimal digits.
pub open spec fn all_digits(s: Seq<u8>) -> bool {
    s.len() > 0 && forall|i: int| 0 <= i < s.len() ==> is_digit(s[i])
}

/// The text of an attribute file without its final byte (the terminator the
/// kernel writes after the value).
pub open spec fn attribute_body(s: Seq<u8>) -> Seq<u8> {
    if s.len() == 0 {
        s
    } else {
        s.drop_last()
    }
}

/// Reads the unsigned number held in a kernel attribute file: the file's
/// bytes without their final terminator must be decimal digits, and the
/// value must fit in `u32`.
pub fn parse_attribute(text: &Vec<u8>) -> (r: Option<u32>)
    ensures
        r is Some <==> (text@.len() > 0 && all_digits(attribute_body(text@)) && decimal_value(
            attribute_body(text@),
        ) <= u32::MAX),
        r is Some ==> r->0 == decimal_value(attribute_body(text@)),
{
    if text.len() == 0 {
        return None;
    }
    let end = text.len() - 1;
    if end == 0 {
        return None;
    }
    let ghost body = attribute_body(text@);
    let mut value: u64 = 0;
    let mut i: usize = 0;
    while i < end
        invariant
            end == text@.len() - 1,
            body == text@.subrange(0, end as int),
            i <= end,
            all_digits(body.subrange(0, i as int)) || i == 0,
            value == decimal_value(body.subrange(0, i as int)),
            value <= u32::MAX,
        decreases end - i,
    {
        let b = text[i];
        proof {
            let s = body.subrange(0, i as int + 1);
            assert(s.drop_last() =~= body.subrange(0, i as int));
            assert(s.last() == b);
        }
        if b < 48 || b > 57 {
            assert(!all_digits(body));
            return None;
        }
        let next: u64 = value * 10 + (b - 48) as u64;
        if next > u32::MAX as u64 {
            proof {
                if all_digits(body) {
                    lemma_prefix_bounds(body, i as int + 1);
                }
            }
            return None;
        }
        value = next;
        i = i + 1;
    }
    assert(body.subrange(0, end as int) =~= body);
    Some(value as u32)
}

/// A longer run of digits never writes a smaller number.
proof fn lemma_prefix_bounds(s: Seq<u8>, k: int)
    requires
        0 <= k <= s.len(),
        forall|i: int| 0 <= i < s.len() ==> is_digit(s[i]),
    ensures
        decimal_value(s.subrange(0, k)) <= decimal_value(s),
        decimal_value(s.subrange(0, k)) >= 0,
    decreases s.len() - k,
{
    lemma_value_nonneg(s.subrange(0, k));
    if k < s.len() {
        let t = s.subrange(0, k + 1);
        assert(t.drop_last() =~= s.subrange(0, k));
        lemma_value_nonneg(s.subrange(0, k));
        lemma_prefix_bounds(s, k + 1);
        assert(decimal_value(t) >= decimal_value(s.subrange(0, k))) by (nonlinear_arith)
            requires
                decimal_value(t) == decimal_value(s.subrange(0, k)) * 10 + (t.last() - 48),
                decimal_value(s.subrange(0, k)) >= 0,
                is_digit(t.last()),
        ;
    } else {
        assert(s.subrange(0, k) =~= s);
    }
}

proof fn lemma_value_nonneg(s: Seq<u8>)
    requires
        forall|i: int| 0 <= i < s.len() ==> is_digit(s[i]),
    ensures
        decimal_value(s) >= 0,
    decreases s.len(),
{
    if s.len() > 0 {
        lemma_value_nonneg(s.drop_last());
    }
}

} // verus!
