use vstd::prelude::*;

verus! {

/// Whether the expression evaluates, and the text of its value where it does.
/// The text is claimed only for exact expressions (see `exact_expr`): for other
/// expressions only whether a value comes is a function of the text.
pub uninterp spec fn eval_text(expr: Seq<char>) -> Option<Seq<char>>;

/// A character that meval skips between tokens.
pub open spec fn is_blank_char(c: char) -> bool {
    c == ' ' || c == '\t' || c == '\r' || c == '\n'
}

/// A non-empty text of blanks alone.
pub open spec fn is_blank(s: Seq<char>) -> bool {
    s.len() > 0 && forall|i: int| 0 <= i < s.len() ==> is_blank_char(s[i])
}

/// A character of an expression whose value is computed exactly the same way on
/// every machine: digits, points, the operators `+ - * / %`, parentheses, blanks.
pub open spec fn is_exact_char(c: char) -> bool {
    is_numeral_char(c) || c == '+' || c == '-' || c == '*' || c == '/' || c == '%' || c == '('
        || c == ')' || is_blank_char(c)
}

/// An expression made of exact characters only: no functions, constants or powers.
pub open spec fn exact_expr(s: Seq<char>) -> bool {
    forall|i: int| 0 <= i < s.len() ==> is_exact_char(s[i])
}

pub open spec fn opt_view(v: Option<Vec<char>>) -> Option<Seq<char>> {
    match v {
        Some(t) => Some(t@),
        None => None,
    }
}

/// What an evaluation of `e` may give: nothing for a blank text; otherwise a
/// value exactly when the expression evaluates, and the named text where the
/// expression is exact.
pub open spec fn is_evaluation(e: Seq<char>, v: Option<Seq<char>>) -> bool {
    if is_blank(e) {
        v is None
    } else {
        (v is Some) == (eval_text(e) is Some) && (exact_expr(e) ==> v == eval_text(e))
    }
}

/// Relies on meval::eval_str: the expression's value, written with `f64`'s
/// `to_string`, or `None` where meval reports an error. Whether it reports one
/// depends on the text alone. So does the value, for an exact expression, as it
/// is computed there from correctly rounded parsing and IEEE arithmetic only.
/// meval panics on a text of blanks alone, which is left out.
#[verifier::external_body]
pub(crate) fn evaluate_expression(expr: &Vec<char>) -> (r: Option<Vec<char>>)
    requires
        !is_blank(expr@),
    ensures
        (r is Some) == (eval_text(expr@) is Some),
        exact_expr(expr@) ==> opt_view(r) == eval_text(expr@),
{
    let text: String = expr.iter().collect();
    meval::eval_str(&text).ok().map(|v| v.to_string().chars().collect())
}

/// Relies on std's `FromIterator<char> for String`: the string of these characters.
#[verifier::external_body]
pub(crate) fn text_of(cs: &Vec<char>) -> (r: String)
    ensures
        r@ == cs@,
{
    cs.iter().collect()
}

/// Relies on `str::chars` and `FromIterator<char> for Vec<char>`: the characters
/// of the string, in order.
#[verifier::external_body]
pub(crate) fn chars_of(s: &str) -> (r: Vec<char>)
    ensures
        r@ == s@,
{
    s.chars().collect()
}

/// A character that may stand in a number literal.
pub open spec fn is_numeral_char(c: char) -> bool {
    ('0' <= c && c <= '9') || c == '.'
}

/// The number literal that starts at `i` in `s` ends before `j` and is a zero:
/// `s[i..j]` is a maximal run of digits and points that holds only zeros and
/// points, and a zero at least.
pub open spec fn zero_literal_until(s: Seq<char>, i: int, j: int) -> bool {
    i < j <= s.len() && (j == s.len() || !is_numeral_char(s[j])) && (forall|k: int|
        i <= k < j ==> s[k] == '0' || s[k] == '.') && (exists|k: int| i <= k < j && s[k] == '0')
}

/// The number literal that starts at `i` in `s` is a zero.
pub open spec fn zero_literal_at(s: Seq<char>, i: int) -> bool {
    exists|j: int| zero_literal_until(s, i, j)
}

/// The expression divides by a literal zero somewhere: a `/` directly followed
/// by digits and points that are all zeros, as in `5/0`, `5/0.0` or `5/.0`. A
/// divisor in parentheses or with a sign (`5/(0)`, `5/-0`) is not caught here.
pub open spec fn divides_by_zero_spec(s: Seq<char>) -> bool {
    exists|i: int| 0 <= i && i + 1 < s.len() && s[i] == '/' && zero_literal_at(s, i + 1)
}

/// Whether the text is blank.
pub fn blank_text(s: &Vec<char>) -> (r: bool)
    ensures
        r == is_blank(s@),
{
    if s.len() == 0 {
        return false;
    }
    let mut i: usize = 0;
    while i < s.len()
        invariant
            0 <= i <= s@.len(),
            forall|k: int| 0 <= k < i ==> is_blank_char(s@[k]),
        decreases s@.len() - i,
    {
        let c = s[i];
        if !(c == ' ' || c == '\t' || c == '\r' || c == '\n') {
            return false;
        }
        i = i + 1;
    }
    true
}

/// Evaluates the expression; a blank text gives nothing.
pub fn evaluate(e: &Vec<char>) -> (r: Option<Vec<char>>)
    ensures
        is_evaluation(e@, opt_view(r)),
{
    if blank_text(e) {
        None
    } else {
        evaluate_expression(e)
    }
}

/// A zero literal at `i` spans the whole run of zeros and points that starts at
/// `i`, and holds a zero.
proof fn lemma_zero_literal_run(s: Seq<char>, i: int, j: int)
    requires
        0 <= i <= j <= s.len(),
        forall|k: int| i <= k < j ==> s[k] == '0' || s[k] == '.',
        j == s.len() || !(s[j] == '0' || s[j] == '.'),
        zero_literal_at(s, i),
    ensures
        j == s.len() || !is_numeral_char(s[j]),
        exists|k: int| i <= k < j && s[k] == '0',
{
    let j2 = choose|j2: int| zero_literal_until(s, i, j2);
    if j2 < j {
        assert(is_numeral_char(s[j2]));
    } else if j2 > j {
        assert(s[j] == '0' || s[j] == '.');
    }
}

pub fn is_numeral(c: char) -> (r: bool)
    ensures
        r == is_numeral_char(c),
{
    ('0' <= c && c <= '9') || c == '.'
}

/// Whether the number literal that starts at `i` is a zero.
pub fn zero_literal_from(s: &Vec<char>, i: usize) -> (r: bool)
    requires
        i <= s@.len(),
    ensures
        r == zero_literal_at(s@, i as int),
{
    let mut j: usize = i;
    let mut seen_zero = false;
    while j < s.len() && (s[j] == '0' || s[j] == '.')
        invariant
            i <= j <= s@.len(),
            forall|k: int| i <= k < j ==> s@[k] == '0' || s@[k] == '.',
            seen_zero == (exists|k: int| i <= k < j && s@[k] == '0'),
        decreases s@.len() - j,
    {
        if s[j] == '0' {
            seen_zero = true;
        }
        j = j + 1;
    }
    if j < s.len() && is_numeral(s[j]) {
        proof {
            if zero_literal_at(s@, i as int) {
                lemma_zero_literal_run(s@, i as int, j as int);
            }
        }
        false
    } else {
        if seen_zero {
            assert(zero_literal_until(s@, i as int, j as int));
        } else {
            proof {
                if zero_literal_at(s@, i as int) {
                    lemma_zero_literal_run(s@, i as int, j as int);
                }
            }
        }
        seen_zero
    }
}

/// Whether the expression divides by a literal zero.
pub fn divides_by_zero(s: &Vec<char>) -> (r: bool)
    ensures
        r == divides_by_zero_spec(s@),
{
    let mut i: usize = 0;
    while i < s.len() && i + 1 < s.len()
        invariant
            0 <= i <= s@.len(),
            forall|i2: int|
                0 <= i2 < i && i2 + 1 < s@.len() ==> !(s@[i2] == '/' && zero_literal_at(
                    s@,
                    i2 + 1,
                )),
        decreases s@.len() - i,
    {
        if s[i] == '/' && zero_literal_from(s, i + 1) {
            return true;
        }
        i = i + 1;
    }
    false
}

} // verus!
