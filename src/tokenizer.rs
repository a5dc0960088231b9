use vstd::prelude::*;

use crate::keywords::{ascii_lower, lower_char, model, KeyWord, Token};

verus! {

/// The spelling of each keyword of the vocabulary, in lower case.
pub open spec fn keyword_text(t: Token) -> Seq<char> {
    match t {
        Token::Select => seq!['s', 'e', 'l', 'e', 'c', 't', 'b', 'y'],
        Token::Update => seq!['s', 'e', 't'],
        Token::Delete => seq!['d', 'e', 'l', 'e', 't', 'e', 'b', 'y'],
        Token::Create => seq!['c', 'r', 'e', 'a', 't', 'e'],
        Token::And => seq!['a', 'n', 'd'],
        Token::Or => seq!['o', 'r'],
        Token::By => seq!['b', 'y'],
        Token::Param(_) => seq![],
        Token::ColumnName(_) => seq![],
    }
}

/// `w` occurs in `s` at position `i`, ignoring ASCII case.
pub open spec fn occurs_at(s: Seq<char>, i: int, w: Seq<char>) -> bool {
    0 <= i && i + w.len() <= s.len() && forall|j: int|
        0 <= j < w.len() ==> ascii_lower(#[trigger] s[i + j]) == w[j]
}

/// The keyword that starts at position `i` of `s`, if any; the vocabulary is tried in a
/// fixed order, although no two of its words can start at the same place.
pub open spec fn keyword_at(s: Seq<char>, i: int) -> Option<Token> {
    if occurs_at(s, i, keyword_text(Token::Select)) {
        Some(Token::Select)
    } else if occurs_at(s, i, keyword_text(Token::Update)) {
        Some(Token::Update)
    } else if occurs_at(s, i, keyword_text(Token::Delete)) {
        Some(Token::Delete)
    } else if occurs_at(s, i, keyword_text(Token::Create)) {
        Some(Token::Create)
    } else if occurs_at(s, i, keyword_text(Token::And)) {
        Some(Token::And)
    } else if occurs_at(s, i, keyword_text(Token::Or)) {
        Some(Token::Or)
    } else if occurs_at(s, i, keyword_text(Token::By)) {
        Some(Token::By)
    } else {
        None
    }
}

/// How a literal span is classified: a column name while an update has not yet met `By`,
/// a parameter otherwise.
pub open spec fn literal_token(acc: Seq<Token>, by_found: bool, text: Seq<char>) -> Token {
    if acc.len() > 0 && acc[0] is Update && !by_found {
        Token::ColumnName(text)
    } else {
        Token::Param(text)
    }
}

/// `acc` followed by the literal span `s[lit..pos]`, unless that span is empty.
pub open spec fn flush(acc: Seq<Token>, by_found: bool, s: Seq<char>, lit: int, pos: int) -> Seq<
    Token,
> {
    if lit < pos {
        acc.push(literal_token(acc, by_found, s.subrange(lit, pos)))
    } else {
        acc
    }
}

/// Leftmost-first scan of `s` from `pos`, where the pending literal span starts at `lit`,
/// `by_found` tells whether `By` was met, and `acc` holds the tokens emitted so far.
pub open spec fn scan(s: Seq<char>, pos: int, lit: int, by_found: bool, acc: Seq<Token>) -> Seq<
    Token,
>
    decreases s.len() - pos,
{
    if pos >= s.len() {
        flush(acc, by_found, s, lit, s.len() as int)
    } else {
        match keyword_at(s, pos) {
            Some(k) => {
                let e = pos + keyword_text(k).len();
                scan(s, e, e, by_found || k is By, flush(acc, by_found, s, lit, pos).push(k))
            },
            None => scan(s, pos + 1, lit, by_found, acc),
        }
    }
}

/// The token sequence of a method name.
pub open spec fn tokens_of(s: Seq<char>) -> Seq<Token> {
    scan(s, 0, 0, false, seq![])
}

fn spelling(k: &KeyWord) -> (r: Vec<char>)
    ensures
        r@ == keyword_text(k@),
{
    let r = match k {
        KeyWord::Select => vec!['s', 'e', 'l', 'e', 'c', 't', 'b', 'y'],
        KeyWord::Update => vec!['s', 'e', 't'],
        KeyWord::Delete => vec!['d', 'e', 'l', 'e', 't', 'e', 'b', 'y'],
        KeyWord::Create => vec!['c', 'r', 'e', 'a', 't', 'e'],
        KeyWord::And => vec!['a', 'n', 'd'],
        KeyWord::Or => vec!['o', 'r'],
        KeyWord::By => vec!['b', 'y'],
        KeyWord::Param(_) => vec![],
        KeyWord::ColumnName(_) => vec![],
    };
    assert(r@ =~= keyword_text(k@));
    r
}

fn occurs_at_exec(s: &Vec<char>, i: usize, w: &Vec<char>) -> (r: bool)
    ensures
        r == occurs_at(s@, i as int, w@),
{
    if w.len() > s.len() || i > s.len() - w.len() {
        return false;
    }
    let mut j: usize = 0;
    while j < w.len()
        invariant
            i + w.len() <= s.len(),
            j <= w.len(),
            forall|m: int| 0 <= m < j ==> ascii_lower(#[trigger] s@[i + m]) == w@[m],
        decreases w.len() - j,
    {
        if lower_char(s[i + j]) != w[j] {
            return false;
        }
        j = j + 1;
    }
    true
}

fn keyword_at_exec(s: &Vec<char>, i: usize) -> (r: Option<KeyWord>)
    ensures
        r is Some <==> keyword_at(s@, i as int) is Some,
        r is Some ==> r->Some_0@ == keyword_at(s@, i as int)->Some_0,
{
    if occurs_at_exec(s, i, &spelling(&KeyWord::Select)) {
        Some(KeyWord::Select)
    } else if occurs_at_exec(s, i, &spelling(&KeyWord::Update)) {
        Some(KeyWord::Update)
    } else if occurs_at_exec(s, i, &spelling(&KeyWord::Delete)) {
        Some(KeyWord::Delete)
    } else if occurs_at_exec(s, i, &spelling(&KeyWord::Create)) {
        Some(KeyWord::Create)
    } else if occurs_at_exec(s, i, &spelling(&KeyWord::And)) {
        Some(KeyWord::And)
    } else if occurs_at_exec(s, i, &spelling(&KeyWord::Or)) {
        Some(KeyWord::Or)
    } else if occurs_at_exec(s, i, &spelling(&KeyWord::By)) {
        Some(KeyWord::By)
    } else {
        None
    }
}

fn chars_of(name: &str) -> (r: Vec<char>)
    ensures
        r@ == name@,
{
    let n = name.unicode_len();
    let mut r: Vec<char> = Vec::new();
    let mut i: usize = 0;
    while i < n
        invariant
            n == name@.len(),
            i <= n,
            r@ == name@.subrange(0, i as int),
        decreases n - i,
    {
        r.push(name.get_char(i));
        i = i + 1;
        assert(r@ =~= name@.subrange(0, i as int));
    }
    assert(r@ =~= name@);
    r
}

proof fn lemma_model_push(ks: Seq<KeyWord>, k: KeyWord)
    ensures
        model(ks.push(k)) == model(ks).push(k@),
{
    assert(model(ks.push(k)) =~= model(ks).push(k@));
}

/// Appends the literal span `name[lit..pos]`, classified as `literal_token` says, unless it
/// is empty.
fn push_literal(result: &mut Vec<KeyWord>, name: &str, by_found: bool, lit: usize, pos: usize)
    requires
        lit <= pos <= name@.len(),
    ensures
        model(final(result)@) == flush(model(old(result)@), by_found, name@, lit as int, pos as int),
{
    if lit < pos {
        let text = String::from_str(name.substring_char(lit, pos));
        let column = result.len() > 0 && matches!(result[0], KeyWord::Update) && !by_found;
        let k = if column {
            KeyWord::ColumnName(text)
        } else {
            KeyWord::Param(text)
        };
        proof {
            lemma_model_push(result@, k);
        }
        result.push(k);
    }
}

/// Splits a method name into keywords and literal spans, scanning leftmost-first for the
/// vocabulary `SelectBy`, `Set`, `DeleteBy`, `Create`, `And`, `Or`, `By` in any ASCII case.
pub fn tokenize(name: &str) -> (r: Vec<KeyWord>)
    ensures
        model(r@) == tokens_of(name@),
{
    let s = chars_of(name);
    let n = s.len();
    let mut result: Vec<KeyWord> = Vec::new();
    let mut pos: usize = 0;
    let mut lit: usize = 0;
    let mut by_found = false;
    assert(model(result@) =~= seq![]);
    while pos < n
        invariant
            s@ == name@,
            n == s@.len(),
            lit <= pos <= n,
            scan(s@, pos as int, lit as int, by_found, model(result@)) == tokens_of(name@),
        decreases n - pos,
    {
        match keyword_at_exec(&s, pos) {
            Some(k) => {
                let w = spelling(&k);
                push_literal(&mut result, name, by_found, lit, pos);
                if matches!(k, KeyWord::By) {
                    by_found = true;
                }
                proof {
                    lemma_model_push(result@, k);
                }
                result.push(k);
                pos = pos + w.len();
                lit = pos;
            },
            None => {
                pos = pos + 1;
            },
        }
    }
    push_literal(&mut result, name, by_found, lit, n);
    result
}

/// No literal in `ts` is empty.
pub open spec fn literals_nonempty(ts: Seq<Token>) -> bool {
    forall|i: int|
        0 <= i < ts.len() ==> match #[trigger] ts[i] {
            Token::Param(t) => t.len() > 0,
            Token::ColumnName(t) => t.len() > 0,
            _ => true,
        }
}

proof fn lemma_scan_literals_nonempty(
    s: Seq<char>,
    pos: int,
    lit: int,
    by_found: bool,
    acc: Seq<Token>,
)
    requires
        0 <= lit <= pos,
        lit <= s.len(),
        literals_nonempty(acc),
    ensures
        literals_nonempty(scan(s, pos, lit, by_found, acc)),
    decreases s.len() - pos,
{
    if pos >= s.len() {
        let f = flush(acc, by_found, s, lit, s.len() as int);
        assert(literals_nonempty(f)) by {
            if lit < s.len() {
                assert forall|i: int| 0 <= i < f.len() implies match #[trigger] f[i] {
                    Token::Param(t) => t.len() > 0,
                    Token::ColumnName(t) => t.len() > 0,
                    _ => true,
                } by {
                    if i < acc.len() {
                        assert(f[i] == acc[i]);
                    }
                }
            }
        }
    } else {
        match keyword_at(s, pos) {
            Some(k) => {
                let e = pos + keyword_text(k).len();
                let f = flush(acc, by_found, s, lit, pos).push(k);
                assert(literals_nonempty(f)) by {
                    let g = flush(acc, by_found, s, lit, pos);
                    assert forall|i: int| 0 <= i < f.len() implies match #[trigger] f[i] {
                        Token::Param(t) => t.len() > 0,
                        Token::ColumnName(t) => t.len() > 0,
                        _ => true,
                    } by {
                        if i < acc.len() {
                            assert(f[i] == acc[i]);
                        } else if i < g.len() {
                            assert(f[i] == g[i]);
                        }
                    }
                }
                assert(e <= s.len());
                lemma_scan_literals_nonempty(s, e, e, by_found || k is By, f);
            },
            None => lemma_scan_literals_nonempty(s, pos + 1, lit, by_found, acc),
        }
    }
}

/// The tokenizer never emits an empty literal: two keywords that meet leave no parameter
/// between them.
pub proof fn lemma_no_empty_literal(s: Seq<char>)
    ensures
        literals_nonempty(tokens_of(s)),
{
    lemma_scan_literals_nonempty(s, 0, 0, false, seq![]);
}

} // verus!
