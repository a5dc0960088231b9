use vstd::prelude::*;

use crate::grammar::{count_columns, count_params, starts_with_create, validation};
use crate::keywords::{ascii_lower, lower_char, model, KeyWord, Token};

verus! {

/// The texts of the caller's arguments.
pub open spec fn texts(args: Seq<String>) -> Seq<Seq<char>> {
    args.map_values(|a: String| a@)
}

/// `s` with its ASCII capitals made small.
pub open spec fn lower(s: Seq<char>) -> Seq<char> {
    s.map_values(|c: char| ascii_lower(c))
}

/// The argument bound at cursor `k`; a cursor past the end stays on the last argument.
pub open spec fn arg_at(args: Seq<Seq<char>>, k: int) -> Seq<char> {
    if 0 <= k < args.len() {
        args[k]
    } else if args.len() > 0 {
        args.last()
    } else {
        seq![]
    }
}

/// Number of literal tokens before position `j`: the argument cursor there.
pub open spec fn cursor_at(ts: Seq<Token>, j: int) -> nat {
    count_params(ts.subrange(0, j)) + count_columns(ts.subrange(0, j))
}

/// The fixed text of a keyword.
pub open spec fn keyword_sql(t: Token) -> Seq<char> {
    match t {
        Token::Select => "select * from "@,
        Token::Update => "update "@,
        Token::Delete => "delete from "@,
        Token::Create => "insert into "@,
        Token::And => "and "@,
        Token::Or => "or "@,
        Token::By => " where "@,
        Token::Param(_) => seq![],
        Token::ColumnName(_) => seq![],
    }
}

/// What follows the table name: the start of the values tuple, the assignments or the
/// predicate.
pub open spec fn continuation(t: Token) -> Seq<char> {
    match t {
        Token::Create => " values( "@,
        Token::Update => " set "@,
        _ => " where "@,
    }
}

/// A bound value: quoted, followed by a space.
pub open spec fn bound(v: Seq<char>) -> Seq<char> {
    "'"@ + v + "' "@
}

/// The text of a token that is not first, with `v` the argument at the cursor there.
pub open spec fn fragment(t: Token, v: Seq<char>) -> Seq<char> {
    match t {
        Token::Param(n) => " '"@ + lower(n) + "' "@ + " = "@ + bound(v),
        Token::ColumnName(n) => lower(n) + " = "@ + bound(v),
        _ => keyword_sql(t),
    }
}

/// The text emitted for the token at position `j`.
pub open spec fn piece(ts: Seq<Token>, table: Seq<char>, args: Seq<Seq<char>>, j: int) -> Seq<char> {
    if j == 0 {
        keyword_sql(ts[0]) + table + continuation(ts[0])
    } else {
        fragment(ts[j], arg_at(args, cursor_at(ts, j) as int))
    }
}

/// The text emitted for the first `i` tokens.
pub open spec fn emitted(ts: Seq<Token>, table: Seq<char>, args: Seq<Seq<char>>, i: int) -> Seq<
    char,
>
    decreases i,
{
    if i <= 0 {
        seq![]
    } else {
        emitted(ts, table, args, i - 1) + piece(ts, table, args, i - 1)
    }
}

/// The first `j` arguments, each quoted between spaces, separated by commas.
pub open spec fn value_list(args: Seq<Seq<char>>, j: int) -> Seq<char>
    decreases j,
{
    if j <= 0 {
        seq![]
    } else if j == 1 {
        " '"@ + args[0] + "' "@
    } else {
        value_list(args, j - 1) + ", "@ + " '"@ + args[j - 1] + "' "@
    }
}

/// An insert closes its values tuple with every argument; other actions add nothing.
pub open spec fn closing(ts: Seq<Token>, args: Seq<Seq<char>>) -> Seq<char> {
    if starts_with_create(ts) {
        value_list(args, args.len() as int) + ")"@
    } else {
        seq![]
    }
}

/// The SQL statement for a token sequence, a table and the caller's arguments.
pub open spec fn statement(ts: Seq<Token>, table: Seq<char>, args: Seq<Seq<char>>) -> Seq<char> {
    emitted(ts, table, args, ts.len() as int) + closing(ts, args) + ";"@
}

/// Relies on `String::push`: the string grows by the one character given.
#[verifier::external_body]
fn push_char(s: &mut String, c: char)
    ensures
        final(s)@ == old(s)@.push(c),
{
    s.push(c)
}

fn append_lower(out: &mut String, s: &str)
    ensures
        final(out)@ == old(out)@ + lower(s@),
{
    let n = s.unicode_len();
    let mut i: usize = 0;
    while i < n
        invariant
            n == s@.len(),
            i <= n,
            out@ == old(out)@ + lower(s@.subrange(0, i as int)),
        decreases n - i,
    {
        push_char(out, lower_char(s.get_char(i)));
        i = i + 1;
        assert(out@ =~= old(out)@ + lower(s@.subrange(0, i as int)));
    }
    assert(s@.subrange(0, n as int) =~= s@);
}

fn arg_text(args: &Vec<String>, k: usize) -> (r: &str)
    ensures
        r@ == arg_at(texts(args@), k as int),
{
    if k < args.len() {
        args[k].as_str()
    } else if args.len() > 0 {
        args[args.len() - 1].as_str()
    } else {
        proof {
            reveal_strlit("");
        }
        ""
    }
}

fn push_bound(out: &mut String, v: &str)
    ensures
        final(out)@ == old(out)@ + bound(v@),
{
    out.append("'");
    out.append(v);
    out.append("' ");
    assert(out@ =~= old(out)@ + bound(v@));
}

fn push_fragment(out: &mut String, k: &KeyWord, v: &str)
    ensures
        final(out)@ == old(out)@ + fragment(k@, v@),
{
    match k {
        KeyWord::Param(n) => {
            out.append(" '");
            append_lower(out, n.as_str());
            out.append("' ");
            out.append(" = ");
            push_bound(out, v);
        },
        KeyWord::ColumnName(n) => {
            append_lower(out, n.as_str());
            out.append(" = ");
            push_bound(out, v);
        },
        _ => push_keyword(out, k),
    }
    assert(out@ =~= old(out)@ + fragment(k@, v@));
}

fn push_keyword(out: &mut String, k: &KeyWord)
    ensures
        final(out)@ == old(out)@ + keyword_sql(k@),
{
    match k {
        KeyWord::Select => out.append("select * from "),
        KeyWord::Update => out.append("update "),
        KeyWord::Delete => out.append("delete from "),
        KeyWord::Create => out.append("insert into "),
        KeyWord::And => out.append("and "),
        KeyWord::Or => out.append("or "),
        KeyWord::By => out.append(" where "),
        KeyWord::Param(_) => {
            assert(out@ =~= old(out)@ + keyword_sql(k@));
        },
        KeyWord::ColumnName(_) => {
            assert(out@ =~= old(out)@ + keyword_sql(k@));
        },
    }
}

fn push_continuation(out: &mut String, k: &KeyWord)
    ensures
        final(out)@ == old(out)@ + continuation(k@),
{
    match k {
        KeyWord::Create => out.append(" values( "),
        KeyWord::Update => out.append(" set "),
        _ => out.append(" where "),
    }
}

fn push_value_list(out: &mut String, args: &Vec<String>)
    ensures
        final(out)@ == old(out)@ + value_list(texts(args@), args@.len() as int),
{
    let ghost a = texts(args@);
    let mut j: usize = 0;
    while j < args.len()
        invariant
            a == texts(args@),
            j <= args@.len(),
            out@ == old(out)@ + value_list(a, j as int),
        decreases args.len() - j,
    {
        if j > 0 {
            out.append(", ");
        }
        out.append(" '");
        out.append(args[j].as_str());
        out.append("' ");
        assert(out@ =~= old(out)@ + value_list(a, j + 1));
        j = j + 1;
    }
}

proof fn lemma_cursor_step(ts: Seq<Token>, j: int)
    requires
        0 <= j < ts.len(),
    ensures
        cursor_at(ts, j + 1) == cursor_at(ts, j) + if ts[j] is Param || ts[j] is ColumnName {
            1nat
        } else {
            0nat
        },
        cursor_at(ts, j) <= j,
    decreases j,
{
    assert(ts.subrange(0, j + 1).drop_last() =~= ts.subrange(0, j));
    if j > 0 {
        lemma_cursor_step(ts, j - 1);
    } else {
        assert(ts.subrange(0, 0) =~= Seq::<Token>::empty());
    }
}

/// Builds the SQL statement of a validated token sequence for `table`, binding `args`
/// positionally to the parameter and column tokens.
///
/// Argument values are written into the text between single quotes as they are, with no
/// escaping and no placeholders: a value holding a quote changes the statement, so only
/// trusted values may be passed.
pub fn emit(tokens: &Vec<KeyWord>, table: &str, args: &Vec<String>) -> (r: String)
    requires
        validation(model(tokens@), args@.len()) is Ok,
    ensures
        r@ == statement(model(tokens@), table@, texts(args@)),
        r@.len() > 0,
        r@.last() == ';',
{
    let ghost ts = model(tokens@);
    let ghost a = texts(args@);
    let n = tokens.len();
    assert(n > 0) by {
        if n == 0 {
            assert(ts =~= Seq::<Token>::empty());
        }
    }
    let mut out = String::new();
    push_keyword(&mut out, &tokens[0]);
    out.append(table);
    push_continuation(&mut out, &tokens[0]);
    assert(ts[0] == tokens@[0]@);
    assert(emitted(ts, table@, a, 0) == Seq::<char>::empty());
    assert(out@ =~= emitted(ts, table@, a, 1));
    let mut cursor: usize = 0;
    let mut i: usize = 1;
    proof {
        lemma_cursor_step(ts, 0);
    }
    while i < n
        invariant
            ts == model(tokens@),
            a == texts(args@),
            n == tokens@.len(),
            1 <= i <= n,
            cursor == cursor_at(ts, i as int),
            out@ == emitted(ts, table@, a, i as int),
        decreases n - i,
    {
        proof {
            lemma_cursor_step(ts, i as int);
        }
        let v = arg_text(args, cursor);
        push_fragment(&mut out, &tokens[i], v);
        if matches!(tokens[i], KeyWord::Param(_) | KeyWord::ColumnName(_)) {
            cursor = cursor + 1;
        }
        i = i + 1;
    }
    let ghost body = out@;
    if matches!(tokens[0], KeyWord::Create) {
        push_value_list(&mut out, args);
        out.append(")");
    }
    assert(out@ =~= body + closing(ts, a));
    out.append(";");
    proof {
        reveal_strlit(";");
    }
    out
}

/// Every statement, of any token sequence, is non-empty and closed by a semicolon.
pub proof fn lemma_statement_ends_with_semicolon(
    ts: Seq<Token>,
    table: Seq<char>,
    args: Seq<Seq<char>>,
)
    ensures
        statement(ts, table, args).len() > 0,
        statement(ts, table, args).last() == ';',
{
    reveal_strlit(";");
}

/// Emission is a function of its inputs: two statements built from the same token
/// sequence, table and arguments are the same text.
pub proof fn lemma_emit_deterministic(
    ts: Seq<Token>,
    table: Seq<char>,
    args: Seq<Seq<char>>,
    first: Seq<char>,
    second: Seq<char>,
)
    requires
        first == statement(ts, table, args),
        second == statement(ts, table, args),
    ensures
        first == second,
{
}

} // verus!
