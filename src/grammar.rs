use vstd::prelude::*;

use crate::keywords::{is_action, is_literal, model, KeyWord, Token};

verus! {

/// Which argument-count rule a method name broke.
#[derive(Debug, Clone, Copy, PartialEq, Eq, Structural)]
pub enum CountRule {
    /// An update names as many columns as it binds predicate values.
    ColumnsPairParams,
    /// An update takes one argument per column and one per predicate value.
    UpdateTotal,
    /// Any other action but `Create` takes one argument per predicate value.
    ParamTotal,
}

/// Why a token sequence is not a legal query shape. `index` is the position of the
/// offending token; the token before it is the other party to the violation.
#[derive(Debug, Clone, Copy, PartialEq, Eq, Structural)]
pub enum GrammarError {
    EmptyPredicate,
    ArgumentCountMismatch { rule: CountRule, declared: usize, columns: usize, params: usize },
    IllegalTerminalToken,
    IllegalFirstToken,
    RepeatedToken { index: usize },
    MultipleActions { index: usize },
    IllegalConnectorPlacement { index: usize },
    IllegalByPlacement { index: usize },
}

/// Number of `Param` tokens in `ts`.
pub open spec fn count_params(ts: Seq<Token>) -> nat
    decreases ts.len(),
{
    if ts.len() == 0 {
        0
    } else {
        count_params(ts.drop_last()) + if ts.last() is Param {
            1nat
        } else {
            0nat
        }
    }
}

/// Number of `ColumnName` tokens in `ts`.
pub open spec fn count_columns(ts: Seq<Token>) -> nat
    decreases ts.len(),
{
    if ts.len() == 0 {
        0
    } else {
        count_columns(ts.drop_last()) + if ts.last() is ColumnName {
            1nat
        } else {
            0nat
        }
    }
}

/// The sequence is an update.
pub open spec fn starts_with_update(ts: Seq<Token>) -> bool {
    ts.len() > 0 && ts[0] is Update
}

/// The sequence is an insert.
pub open spec fn starts_with_create(ts: Seq<Token>) -> bool {
    ts.len() > 0 && ts[0] is Create
}

/// The rule that the pair `ts[i - 1]`, `ts[i]` breaks, if any.
pub open spec fn pair_error(ts: Seq<Token>, i: int) -> Option<GrammarError> {
    let prev = ts[i - 1];
    let cur = ts[i];
    if prev == cur {
        Some(GrammarError::RepeatedToken { index: i as usize })
    } else if is_action(cur) {
        Some(GrammarError::MultipleActions { index: i as usize })
    } else if (cur is And || cur is Or) && !is_literal(prev) {
        Some(GrammarError::IllegalConnectorPlacement { index: i as usize })
    } else if cur is By && (prev is And || prev is Or || is_action(prev)) {
        Some(GrammarError::IllegalByPlacement { index: i as usize })
    } else {
        None
    }
}

/// The first pair at or after position `i` that breaks a rule, scanning left to right.
pub open spec fn first_pair_error(ts: Seq<Token>, i: int) -> Result<(), GrammarError>
    decreases ts.len() - i,
{
    if i <= 0 || i >= ts.len() {
        Ok(())
    } else {
        match pair_error(ts, i) {
            Some(e) => Err(e),
            None => first_pair_error(ts, i + 1),
        }
    }
}

/// The verdict on a token sequence for a method declaring `declared` arguments: the count
/// and terminal rules first, then the first token, then each adjacent pair in order.
pub open spec fn validation(ts: Seq<Token>, declared: nat) -> Result<(), GrammarError> {
    let params = count_params(ts);
    let columns = count_columns(ts);
    let update = starts_with_update(ts);
    let create = starts_with_create(ts);
    let mismatch = |rule: CountRule|
        GrammarError::ArgumentCountMismatch {
            rule,
            declared: declared as usize,
            columns: columns as usize,
            params: params as usize,
        };
    if update && params != columns {
        Err(mismatch(CountRule::ColumnsPairParams))
    } else if update && declared != columns + params {
        Err(mismatch(CountRule::UpdateTotal))
    } else if !create && params == 0 {
        Err(GrammarError::EmptyPredicate)
    } else if !create && !update && params != declared {
        Err(mismatch(CountRule::ParamTotal))
    } else if !create && !(ts.last() is Param) {
        Err(GrammarError::IllegalTerminalToken)
    } else if !is_action(ts[0]) {
        Err(GrammarError::IllegalFirstToken)
    } else {
        first_pair_error(ts, 1)
    }
}

/// Tells the variants of a token apart.
spec fn variant_of(t: Token) -> u8 {
    match t {
        Token::Select => 0,
        Token::Update => 1,
        Token::Delete => 2,
        Token::Create => 3,
        Token::And => 4,
        Token::Or => 5,
        Token::By => 6,
        Token::Param(_) => 7,
        Token::ColumnName(_) => 8,
    }
}

fn variant(k: &KeyWord) -> (r: u8)
    ensures
        r == variant_of(k@),
{
    match k {
        KeyWord::Select => 0,
        KeyWord::Update => 1,
        KeyWord::Delete => 2,
        KeyWord::Create => 3,
        KeyWord::And => 4,
        KeyWord::Or => 5,
        KeyWord::By => 6,
        KeyWord::Param(_) => 7,
        KeyWord::ColumnName(_) => 8,
    }
}

fn same_keyword(a: &KeyWord, b: &KeyWord) -> (r: bool)
    ensures
        r == (a@ == b@),
{
    match a {
        KeyWord::Param(x) => match b {
            KeyWord::Param(y) => *x == *y,
            _ => false,
        },
        KeyWord::ColumnName(x) => match b {
            KeyWord::ColumnName(y) => *x == *y,
            _ => false,
        },
        _ => variant(a) == variant(b),
    }
}

fn action(k: &KeyWord) -> (r: bool)
    ensures
        r == is_action(k@),
{
    matches!(k, KeyWord::Select | KeyWord::Update | KeyWord::Delete | KeyWord::Create)
}

fn literal(k: &KeyWord) -> (r: bool)
    ensures
        r == is_literal(k@),
{
    matches!(k, KeyWord::Param(_) | KeyWord::ColumnName(_))
}

/// Counts the `Param` and the `ColumnName` tokens.
fn count_literals(tokens: &Vec<KeyWord>) -> (r: (usize, usize))
    ensures
        r.0 == count_params(model(tokens@)),
        r.1 == count_columns(model(tokens@)),
        r.0 + r.1 <= tokens@.len(),
{
    let ghost ts = model(tokens@);
    let mut params: usize = 0;
    let mut columns: usize = 0;
    let mut i: usize = 0;
    while i < tokens.len()
        invariant
            ts == model(tokens@),
            i <= tokens@.len(),
            params == count_params(ts.subrange(0, i as int)),
            columns == count_columns(ts.subrange(0, i as int)),
            params + columns <= i,
        decreases tokens.len() - i,
    {
        assert(ts.subrange(0, i + 1).drop_last() =~= ts.subrange(0, i as int));
        match &tokens[i] {
            KeyWord::Param(_) => params = params + 1,
            KeyWord::ColumnName(_) => columns = columns + 1,
            _ => {},
        }
        i = i + 1;
    }
    assert(ts.subrange(0, i as int) =~= ts);
    (params, columns)
}

fn pair_error_exec(tokens: &Vec<KeyWord>, i: usize) -> (r: Option<GrammarError>)
    requires
        0 < i < tokens@.len(),
    ensures
        r == pair_error(model(tokens@), i as int),
{
    let prev = &tokens[i - 1];
    let cur = &tokens[i];
    if same_keyword(prev, cur) {
        Some(GrammarError::RepeatedToken { index: i })
    } else if action(cur) {
        Some(GrammarError::MultipleActions { index: i })
    } else if matches!(cur, KeyWord::And | KeyWord::Or) && !literal(prev) {
        Some(GrammarError::IllegalConnectorPlacement { index: i })
    } else if matches!(cur, KeyWord::By) && (matches!(prev, KeyWord::And | KeyWord::Or) || action(
        prev,
    )) {
        Some(GrammarError::IllegalByPlacement { index: i })
    } else {
        None
    }
}

/// Checks that a token sequence forms a legal query shape for a method that declares
/// `declared` arguments, reporting the first rule broken in the order of `validation`.
pub fn validate(tokens: &Vec<KeyWord>, declared: usize) -> (r: Result<(), GrammarError>)
    ensures
        r == validation(model(tokens@), declared as nat),
{
    let ghost ts = model(tokens@);
    let (params, columns) = count_literals(tokens);
    let update = tokens.len() > 0 && matches!(tokens[0], KeyWord::Update);
    let create = tokens.len() > 0 && matches!(tokens[0], KeyWord::Create);
    if update && params != columns {
        return Err(
            GrammarError::ArgumentCountMismatch {
                rule: CountRule::ColumnsPairParams,
                declared,
                columns,
                params,
            },
        );
    }
    if update && declared != columns + params {
        return Err(
            GrammarError::ArgumentCountMismatch {
                rule: CountRule::UpdateTotal,
                declared,
                columns,
                params,
            },
        );
    }
    if !create && params == 0 {
        return Err(GrammarError::EmptyPredicate);
    }
    if !create && !update && params != declared {
        return Err(
            GrammarError::ArgumentCountMismatch {
                rule: CountRule::ParamTotal,
                declared,
                columns,
                params,
            },
        );
    }
    if !create && !matches!(tokens[tokens.len() - 1], KeyWord::Param(_)) {
        return Err(GrammarError::IllegalTerminalToken);
    }
    if !action(&tokens[0]) {
        return Err(GrammarError::IllegalFirstToken);
    }
    let mut i: usize = 1;
    while i < tokens.len()
        invariant
            ts == model(tokens@),
            1 <= i <= tokens@.len(),
            validation(ts, declared as nat) == first_pair_error(ts, i as int),
        decreases tokens.len() - i,
    {
        if let Some(e) = pair_error_exec(tokens, i) {
            assert(first_pair_error(ts, i as int) == Err::<(), GrammarError>(e));
            return Err(e);
        }
        assert(first_pair_error(ts, i as int) == first_pair_error(ts, i + 1));
        i = i + 1;
    }
    assert(first_pair_error(ts, i as int) == Ok::<(), GrammarError>(()));
    Ok(())
}

proof fn lemma_pairs_clean(ts: Seq<Token>, i: int, j: int)
    requires
        1 <= i <= j < ts.len(),
        first_pair_error(ts, i) is Ok,
    ensures
        pair_error(ts, j) is None,
    decreases j - i,
{
    if i < j {
        lemma_pairs_clean(ts, i + 1, j);
    }
}

/// A sequence that passes validation opens with its one action verb, holds no other, and,
/// unless it creates, ends with a bound parameter; no two neighbours are equal, and every
/// connector follows a literal.
pub proof fn lemma_valid_shape(ts: Seq<Token>, declared: nat)
    requires
        validation(ts, declared) is Ok,
    ensures
        ts.len() > 0,
        is_action(ts[0]),
        forall|j: int| 1 <= j < ts.len() ==> !is_action(#[trigger] ts[j]),
        forall|j: int| 1 <= j < ts.len() ==> ts[j - 1] != #[trigger] ts[j],
        forall|j: int|
            1 <= j < ts.len() && (ts[j] is And || ts[j] is Or) ==> is_literal(#[trigger] ts[j - 1]),
        !starts_with_create(ts) ==> ts.last() is Param,
{
    if ts.len() == 0 {
        assert(count_params(ts) == 0);
    }
    assert forall|j: int| 1 <= j < ts.len() implies !is_action(#[trigger] ts[j]) && ts[j - 1]
        != ts[j] && ((ts[j] is And || ts[j] is Or) ==> is_literal(ts[j - 1])) by {
        lemma_pairs_clean(ts, 1, j);
    }
}

/// An update passes the count rules exactly when it names as many columns as it binds
/// values and declares one argument for each of them; otherwise validation reports an
/// argument-count mismatch.
pub proof fn lemma_update_counts(ts: Seq<Token>, declared: nat)
    requires
        starts_with_update(ts),
    ensures
        validation(ts, declared) is Ok ==> count_columns(ts) == count_params(ts) && declared
            == count_columns(ts) + count_params(ts),
        (count_columns(ts) != count_params(ts) || declared != count_columns(ts) + count_params(
            ts,
        )) ==> validation(ts, declared) matches Err(GrammarError::ArgumentCountMismatch { .. }),
{
}

} // verus!
