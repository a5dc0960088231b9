use vstd::prelude::*;

verus! {

/// One word of a method name: an action verb, a connector, or a literal span.
#[derive(Debug, PartialEq, Eq)]
pub enum KeyWord {
    Select,
    Update,
    Delete,
    Create,
    And,
    Or,
    By,
    Param(String),
    ColumnName(String),
}

/// The mathematical model of a `KeyWord`: literal spans become character sequences.
pub enum Token {
    Select,
    Update,
    Delete,
    Create,
    And,
    Or,
    By,
    Param(Seq<char>),
    ColumnName(Seq<char>),
}

impl View for KeyWord {
    type V = Token;

    open spec fn view(&self) -> Token {
        match self {
            KeyWord::Select => Token::Select,
            KeyWord::Update => Token::Update,
            KeyWord::Delete => Token::Delete,
            KeyWord::Create => Token::Create,
            KeyWord::And => Token::And,
            KeyWord::Or => Token::Or,
            KeyWord::By => Token::By,
            KeyWord::Param(s) => Token::Param(s@),
            KeyWord::ColumnName(s) => Token::ColumnName(s@),
        }
    }
}

/// The models of a sequence of keywords.
pub open spec fn model(ks: Seq<KeyWord>) -> Seq<Token> {
    ks.map_values(|k: KeyWord| k@)
}

/// The four action verbs, one of which opens every legal sequence.
pub open spec fn is_action(t: Token) -> bool {
    t is Select || t is Update || t is Delete || t is Create
}

/// The literal spans, each bound to one argument when emitted.
pub open spec fn is_literal(t: Token) -> bool {
    t is Param || t is ColumnName
}

/// `c` made small if it is an ASCII capital.
pub open spec fn ascii_lower(c: char) -> char {
    if 'A' <= c && c <= 'Z' {
        ((c as u8) + 32u8) as char
    } else {
        c
    }
}

/// Makes an ASCII capital small and leaves every other character as it is.
pub fn lower_char(c: char) -> (r: char)
    ensures
        r == ascii_lower(c),
{
    if 'A' <= c && c <= 'Z' {
        ((c as u8) + 32u8) as char
    } else {
        c
    }
}

} // verus!
