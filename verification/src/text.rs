//! Displaying a statement as a single SQL string.
//!
//! A built statement carries SQL text with positional placeholders plus the
//! values bound to them.  For logging and tests the two are combined by
//! substituting each placeholder with its value's SQL literal: `$N` markers
//! for the Postgres dialect, `?` markers otherwise.  Substitution is a single
//! left-to-right pass over the placeholder text; substituted literals are
//! never rescanned.

use vstd::prelude::*;
use crate::statement::{DbBackend, Statement, StatementModel};
use crate::value::{DbValue, ValueModel};

verus! {

/// The decimal digit character for `d`.
pub open spec fn digit_char(d: int) -> char {
    if d == 0 {
        '0'
    } else if d == 1 {
        '1'
    } else if d == 2 {
        '2'
    } else if d == 3 {
        '3'
    } else if d == 4 {
        '4'
    } else if d == 5 {
        '5'
    } else if d == 6 {
        '6'
    } else if d == 7 {
        '7'
    } else if d == 8 {
        '8'
    } else {
        '9'
    }
}

/// The decimal representation of a non-negative number.
pub open spec fn dec_rep(n: nat) -> Seq<char>
    decreases n,
{
    if n < 10 {
        seq![digit_char(n as int)]
    } else {
        dec_rep(n / 10).push(digit_char((n % 10) as int))
    }
}

/// The decimal representation of an integer, with a leading minus sign when
/// negative.
pub open spec fn int_literal(i: int) -> Seq<char> {
    if i < 0 {
        seq!['-'] + dec_rep((-i) as nat)
    } else {
        dec_rep(i as nat)
    }
}

/// Text with every single quote doubled, as SQL string literals demand.
pub open spec fn escape_quotes(s: Seq<char>) -> Seq<char>
    decreases s.len(),
{
    if s.len() == 0 {
        seq![]
    } else {
        (if s.first() == '\'' {
            seq!['\'', '\'']
        } else {
            seq![s.first()]
        }) + escape_quotes(s.drop_first())
    }
}

/// The SQL literal a value renders as: `NULL`, `TRUE`/`FALSE`, a decimal
/// number, or a single-quoted string with quotes doubled.
pub open spec fn rendered_literal(v: ValueModel) -> Seq<char> {
    match v {
        ValueModel::Null => seq!['N', 'U', 'L', 'L'],
        ValueModel::Bool(b) => if b {
            seq!['T', 'R', 'U', 'E']
        } else {
            seq!['F', 'A', 'L', 'S', 'E']
        },
        ValueModel::BigInt(i) => int_literal(i),
        ValueModel::Unsigned(u) => int_literal(u),
        ValueModel::Text(s) => seq!['\''] + escape_quotes(s) + seq!['\''],
    }
}

/// Whether `c` is a decimal digit.
pub open spec fn is_digit(c: char) -> bool {
    48 <= c as int && c as int <= 57
}

/// Substitution for `?` placeholders: each `?` is replaced by the next
/// value's literal, in order; with the values exhausted, text is copied
/// unchanged.
pub open spec fn inject_qmark(sql: Seq<char>, values: Seq<ValueModel>) -> Seq<char>
    decreases sql.len(),
{
    if sql.len() == 0 {
        seq![]
    } else if sql.first() == '?' && values.len() > 0 {
        rendered_literal(values.first()) + inject_qmark(sql.drop_first(), values.drop_first())
    } else {
        seq![sql.first()] + inject_qmark(sql.drop_first(), values)
    }
}

/// Substitution for `$N` placeholders: a `$` followed by a digit consumes the
/// whole digit run and is replaced by the next value's literal, in order.
/// (Rendered statements number their markers in binding order, so sequential
/// substitution matches the numbering.)  `swallowing` records that the scan
/// stands inside a digit run already substituted.
pub open spec fn inject_dollar(sql: Seq<char>, values: Seq<ValueModel>, swallowing: bool) -> Seq<
    char,
>
    decreases sql.len(),
{
    if sql.len() == 0 {
        seq![]
    } else if swallowing && is_digit(sql.first()) {
        inject_dollar(sql.drop_first(), values, true)
    } else if sql.first() == '$' && sql.len() > 1 && is_digit(sql[1]) && values.len() > 0 {
        rendered_literal(values.first()) + inject_dollar(
            sql.drop_first(),
            values.drop_first(),
            true,
        )
    } else {
        seq![sql.first()] + inject_dollar(sql.drop_first(), values, false)
    }
}

/// The single SQL string a statement displays as: its text with every
/// placeholder replaced by the corresponding value's literal; text without
/// bound values is shown as it is.
pub open spec fn statement_text(m: StatementModel) -> Seq<char> {
    match m.values {
        None => m.sql,
        Some(vs) => if m.db_backend == DbBackend::Postgres {
            inject_dollar(m.sql, vs, false)
        } else {
            inject_qmark(m.sql, vs)
        },
    }
}

/// Relies on `String::push`: appends one character.
#[verifier::external_body]
fn push_char(s: &mut String, c: char)
    ensures
        final(s)@ == old(s)@.push(c),
{
    s.push(c);
}

/// The digit character for `d`, which is below ten.
fn digit_of(d: u64) -> (c: char)
    requires
        d < 10,
    ensures
        c == digit_char(d as int),
{
    if d == 0 {
        '0'
    } else if d == 1 {
        '1'
    } else if d == 2 {
        '2'
    } else if d == 3 {
        '3'
    } else if d == 4 {
        '4'
    } else if d == 5 {
        '5'
    } else if d == 6 {
        '6'
    } else if d == 7 {
        '7'
    } else if d == 8 {
        '8'
    } else {
        '9'
    }
}

/// Append the decimal representation of `n`.
#[verifier::loop_isolation(false)]
fn push_dec(out: &mut String, n: u64)
    ensures
        final(out)@ == old(out)@ + dec_rep(n as nat),
{
    let mut m: u64 = n;
    let mut digits: Vec<char> = Vec::new();
    proof {
        assert(dec_rep(n as nat) =~= dec_rep(n as nat) + digits@.reverse());
    }
    while m >= 10
        invariant
            dec_rep(n as nat) == dec_rep(m as nat) + digits@.reverse(),
        decreases m,
    {
        let d = m % 10;
        let c = digit_of(d);
        let ghost before = digits@;
        digits.push(c);
        m = m / 10;
        proof {
            assert(digits@.reverse() =~= seq![c] + before.reverse());
            assert(dec_rep(m as nat) + digits@.reverse() =~= dec_rep(m as nat).push(c)
                + before.reverse());
        }
    }
    let c = digit_of(m);
    let ghost before = digits@;
    digits.push(c);
    proof {
        assert(digits@.reverse() =~= seq![c] + before.reverse());
        assert(dec_rep(n as nat) =~= digits@.reverse());
    }
    let k = digits.len();
    for i in 0..k
        invariant
            k == digits@.len(),
            out@ == old(out)@ + digits@.reverse().take(i as int),
    {
        push_char(out, digits[k - 1 - i]);
        proof {
            assert(digits@.reverse()[i as int] == digits@[k - 1 - i]);
            assert(out@ =~= old(out)@ + digits@.reverse().take(i + 1));
        }
    }
    proof {
        assert(digits@.reverse().take(k as int) =~= digits@.reverse());
        assert(out@ =~= old(out)@ + dec_rep(n as nat));
    }
}

/// Append the SQL literal of one value.
#[verifier::loop_isolation(false)]
fn push_literal(out: &mut String, v: &DbValue)
    ensures
        final(out)@ == old(out)@ + rendered_literal(v@),
{
    match v {
        DbValue::Null => {
            out.append("NULL");
            proof {
                reveal_strlit("NULL");
                assert(out@ =~= old(out)@ + rendered_literal(v@));
            }
        },
        DbValue::Bool(b) => {
            if *b {
                out.append("TRUE");
                proof {
                    reveal_strlit("TRUE");
                    assert(out@ =~= old(out)@ + rendered_literal(v@));
                }
            } else {
                out.append("FALSE");
                proof {
                    reveal_strlit("FALSE");
                    assert(out@ =~= old(out)@ + rendered_literal(v@));
                }
            }
        },
        DbValue::BigInt(i) => {
            let neg = *i < 0;
            let mag: u64 = if *i < 0 {
                (((-(*i + 1)) as u64) + 1)
            } else {
                *i as u64
            };
            if neg {
                push_char(out, '-');
            }
            push_dec(out, mag);
            proof {
                assert(out@ =~= old(out)@ + rendered_literal(v@));
            }
        },
        DbValue::Unsigned(u) => {
            push_dec(out, *u);
            proof {
                assert(out@ =~= old(out)@ + rendered_literal(v@));
            }
        },
        DbValue::Text(s) => {
            push_char(out, '\'');
            let str_ref = s.as_str();
            let n = str_ref.unicode_len();
            for i in 0..n
                invariant
                    n == s@.len(),
                    str_ref@ == s@,
                    out@ == old(out)@ + seq!['\''] + escape_quotes(s@.take(i as int)),
            {
                let c = str_ref.get_char(i);
                if c == '\'' {
                    push_char(out, '\'');
                    push_char(out, '\'');
                } else {
                    push_char(out, c);
                }
                proof {
                    lemma_escape_quotes_snoc(s@, i as int);
                    assert(out@ =~= old(out)@ + seq!['\''] + escape_quotes(s@.take(i + 1)));
                }
            }
            push_char(out, '\'');
            proof {
                assert(s@.take(n as int) =~= s@);
                assert(out@ =~= old(out)@ + rendered_literal(v@));
            }
        },
    }
}

/// Escaping one more character extends the escaped prefix.
proof fn lemma_escape_quotes_snoc(s: Seq<char>, i: int)
    requires
        0 <= i < s.len(),
    ensures
        escape_quotes(s.take(i + 1)) == escape_quotes(s.take(i)) + (if s[i] == '\'' {
            seq!['\'', '\'']
        } else {
            seq![s[i]]
        }),
    decreases i,
{
    if i == 0 {
        assert(s.take(1) =~= seq![s[0]]);
        assert(s.take(1).drop_first() =~= Seq::<char>::empty());
        assert(s.take(0) =~= Seq::<char>::empty());
        assert(escape_quotes(s.take(1)) =~= escape_quotes(s.take(0)) + (if s[0] == '\'' {
            seq!['\'', '\'']
        } else {
            seq![s[0]]
        }));
    } else {
        lemma_escape_quotes_snoc(s.drop_first(), i - 1);
        assert(s.take(i + 1).drop_first() =~= s.drop_first().take(i));
        assert(s.take(i).drop_first() =~= s.drop_first().take(i - 1));
        assert(s.drop_first()[i - 1] == s[i]);
        assert(s.take(i + 1).first() == s.first());
        assert(s.take(i).first() == s.first());
        assert(escape_quotes(s.take(i + 1)) =~= escape_quotes(s.take(i)) + (if s[i] == '\'' {
            seq!['\'', '\'']
        } else {
            seq![s[i]]
        }));
    }
}

impl Statement {
    /// The statement as one SQL string: its text with every placeholder
    /// replaced by the corresponding bound value's literal.
    #[verifier::loop_isolation(false)]
    pub fn to_string(&self) -> (r: String)
        ensures
            r@ == statement_text(self@),
    {
        broadcast use crate::views::group_model_views;

        match &self.values {
            None => self.sql.clone(),
            Some(vs) => {
                if matches!(self.db_backend, DbBackend::Postgres) {
                    inject_dollar_exec(&self.sql, vs)
                } else {
                    inject_qmark_exec(&self.sql, vs)
                }
            },
        }
    }
}

/// Substitute `?` placeholders left to right.
#[verifier::loop_isolation(false)]
fn inject_qmark_exec(sql: &String, values: &Vec<DbValue>) -> (r: String)
    ensures
        r@ == inject_qmark(sql@, crate::views::value_models(values@)),
{
    broadcast use crate::views::group_model_views;

    let ghost vms = crate::views::value_models(values@);
    let mut out = String::new();
    let s = sql.as_str();
    let n = s.unicode_len();
    let mut vi: usize = 0;
    proof {
        assert(sql@.skip(0) =~= sql@);
        assert(vms.skip(0) =~= vms);
    }
    for i in 0..n
        invariant
            n == sql@.len(),
            s@ == sql@,
            vi <= values@.len(),
            inject_qmark(sql@, vms) == out@ + inject_qmark(sql@.skip(i as int), vms.skip(vi as int)),
    {
        let c = s.get_char(i);
        proof {
            assert(sql@.skip(i as int).first() == sql@[i as int]);
            assert(sql@.skip(i as int).drop_first() =~= sql@.skip(i + 1));
        }
        if c == '?' && vi < values.len() {
            push_literal(&mut out, &values[vi]);
            proof {
                assert(vms.skip(vi as int).first() == vms[vi as int]);
                assert(vms.skip(vi as int).drop_first() =~= vms.skip(vi + 1));
            }
            vi = vi + 1;
        } else {
            push_char(&mut out, c);
        }
    }
    proof {
        assert(sql@.skip(n as int) =~= Seq::<char>::empty());
    }
    out
}

/// Substitute `$N` placeholders left to right, consuming each digit run.
#[verifier::loop_isolation(false)]
fn inject_dollar_exec(sql: &String, values: &Vec<DbValue>) -> (r: String)
    ensures
        r@ == inject_dollar(sql@, crate::views::value_models(values@), false),
{
    broadcast use crate::views::group_model_views;

    let ghost vms = crate::views::value_models(values@);
    let mut out = String::new();
    let s = sql.as_str();
    let n = s.unicode_len();
    let mut vi: usize = 0;
    let mut swallowing = false;
    proof {
        assert(sql@.skip(0) =~= sql@);
        assert(vms.skip(0) =~= vms);
    }
    for i in 0..n
        invariant
            n == sql@.len(),
            s@ == sql@,
            vi <= values@.len(),
            inject_dollar(sql@, vms, false) == out@ + inject_dollar(
                sql@.skip(i as int),
                vms.skip(vi as int),
                swallowing,
            ),
    {
        let c = s.get_char(i);
        proof {
            assert(sql@.skip(i as int).first() == sql@[i as int]);
            assert(sql@.skip(i as int).drop_first() =~= sql@.skip(i + 1));
            if i + 1 < n {
                assert(sql@.skip(i as int)[1] == sql@[i + 1]);
            }
        }
        let c_is_digit = 48 <= (c as u32) && (c as u32) <= 57;
        if swallowing && c_is_digit {
            // part of a substituted marker: skip it
        } else if c == '$' && i + 1 < n && digit_at(s, i + 1) && vi < values.len() {
            push_literal(&mut out, &values[vi]);
            proof {
                assert(vms.skip(vi as int).first() == vms[vi as int]);
                assert(vms.skip(vi as int).drop_first() =~= vms.skip(vi + 1));
            }
            vi = vi + 1;
            swallowing = true;
        } else {
            push_char(&mut out, c);
            swallowing = false;
        }
    }
    proof {
        assert(sql@.skip(n as int) =~= Seq::<char>::empty());
    }
    out
}

/// Whether the character at `i` is a decimal digit.
fn digit_at(s: &str, i: usize) -> (r: bool)
    requires
        i < s@.len(),
    ensures
        r == is_digit(s@[i as int]),
{
    let c = s.get_char(i);
    48 <= (c as u32) && (c as u32) <= 57
}

} // verus!
