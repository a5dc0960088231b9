use vstd::prelude::*;

verus! {

/// Why a name cannot stand as the target type of generated methods.
#[derive(Debug, Clone, Copy, PartialEq, Eq, Structural)]
pub enum TargetNameError {
    Empty,
    NonAscii,
    Digit,
    SpecialCharacter,
}

pub open spec fn is_ascii_char(c: char) -> bool {
    (c as u32) < 128
}

pub open spec fn is_ascii_letter(c: char) -> bool {
    ('a' <= c && c <= 'z') || ('A' <= c && c <= 'Z')
}

pub open spec fn is_ascii_digit(c: char) -> bool {
    '0' <= c && c <= '9'
}

/// The verdict on the characters of `s` from position `i` on: the first that is not a
/// letter decides, a digit and anything else being told apart.
pub open spec fn letters_from(s: Seq<char>, i: int) -> Result<(), TargetNameError>
    decreases s.len() - i,
{
    if i < 0 || i >= s.len() {
        Ok(())
    } else if is_ascii_digit(s[i]) {
        Err(TargetNameError::Digit)
    } else if !is_ascii_letter(s[i]) {
        Err(TargetNameError::SpecialCharacter)
    } else {
        letters_from(s, i + 1)
    }
}

/// The verdict on a target name: it must be non-empty, ASCII, and made of letters only.
pub open spec fn target_name_check(s: Seq<char>) -> Result<(), TargetNameError> {
    if s.len() == 0 {
        Err(TargetNameError::Empty)
    } else if exists|i: int| 0 <= i < s.len() && !is_ascii_char(#[trigger] s[i]) {
        Err(TargetNameError::NonAscii)
    } else {
        letters_from(s, 0)
    }
}

/// Checks that a target name is a non-empty run of ASCII letters.
pub fn validate_target_name(target_name: &str) -> (r: Result<(), TargetNameError>)
    ensures
        r == target_name_check(target_name@),
        r is Ok <==> (target_name@.len() > 0 && forall|i: int|
            0 <= i < target_name@.len() ==> is_ascii_letter(#[trigger] target_name@[i])),
{
    let ghost s = target_name@;
    let n = target_name.unicode_len();
    if n == 0 {
        return Err(TargetNameError::Empty);
    }
    let mut i: usize = 0;
    while i < n
        invariant
            s == target_name@,
            n == s.len(),
            i <= n,
            forall|j: int| 0 <= j < i ==> is_ascii_char(#[trigger] s[j]),
        decreases n - i,
    {
        if (target_name.get_char(i) as u32) >= 128 {
            assert(!is_ascii_letter(s[i as int]));
            return Err(TargetNameError::NonAscii);
        }
        i = i + 1;
    }
    let mut i: usize = 0;
    while i < n
        invariant
            s == target_name@,
            n == s.len(),
            i <= n,
            letters_from(s, 0) == letters_from(s, i as int),
            forall|j: int| 0 <= j < n ==> is_ascii_char(#[trigger] s[j]),
            forall|j: int| 0 <= j < i ==> is_ascii_letter(#[trigger] s[j]),
        decreases n - i,
    {
        let c = target_name.get_char(i);
        if '0' <= c && c <= '9' {
            assert(!is_ascii_letter(s[i as int]));
            return Err(TargetNameError::Digit);
        }
        if !(('a' <= c && c <= 'z') || ('A' <= c && c <= 'Z')) {
            return Err(TargetNameError::SpecialCharacter);
        }
        i = i + 1;
    }
    Ok(())
}

/// The same check on an owned name.
pub fn check_if_target_name_correct(target_name: &String) -> (r: Result<(), TargetNameError>)
    ensures
        r == target_name_check(target_name@),
{
    validate_target_name(target_name.as_str())
}

} // verus!
