//! Share codes: six ASCII letters or digits naming a file on the server.
use vstd::prelude::*;
use vstd::string::*;
use rand::Rng;

use crate::error::TransferError;

verus! {

/// Number of characters in a share code.
pub const CODE_LEN: usize = 6;

/// `c` is an ASCII letter or an ASCII digit.
pub open spec fn is_code_char(c: char) -> bool {
    ('a' <= c && c <= 'z') || ('A' <= c && c <= 'Z') || ('0' <= c && c <= '9')
}

/// Every character of `s` is an ASCII letter or digit.
pub open spec fn all_code_chars(s: Seq<char>) -> bool {
    forall|i: int| 0 <= i < s.len() ==> #[trigger] is_code_char(s[i])
}

/// `s` is a well-formed share code.
pub open spec fn is_valid_code(s: Seq<char>) -> bool {
    s.len() == CODE_LEN && all_code_chars(s)
}

/// What validating `s` yields.
pub open spec fn validate_spec(s: Seq<char>) -> Result<(), TransferError> {
    if is_valid_code(s) {
        Ok(())
    } else {
        Err(TransferError::InvalidFormat)
    }
}

/// Executable form of `is_code_char`.
pub fn is_code_char_exec(c: char) -> (r: bool)
    ensures
        r == is_code_char(c),
{
    ('a' <= c && c <= 'z') || ('A' <= c && c <= 'Z') || ('0' <= c && c <= '9')
}

/// Whether every character of `s` is an ASCII letter or digit.
fn all_code_chars_exec(s: &str) -> (r: bool)
    ensures
        r == all_code_chars(s@),
{
    let n = s.unicode_len();
    let mut i: usize = 0;
    while i < n
        invariant
            n == s@.len(),
            i <= n,
            forall|j: int| 0 <= j < i ==> #[trigger] is_code_char(s@[j]),
        decreases n - i,
    {
        if !is_code_char_exec(s.get_char(i)) {
            return false;
        }
        i = i + 1;
    }
    true
}

/// Checks that `code` is exactly six ASCII letters or digits.
pub fn validate(code: &str) -> (r: Result<(), TransferError>)
    ensures
        r == validate_spec(code@),
{
    if code.unicode_len() == CODE_LEN && all_code_chars_exec(code) {
        Ok(())
    } else {
        Err(TransferError::InvalidFormat)
    }
}

/// Command-line form of `validate`: hands back the code itself, or a message
/// that tells bad characters apart from a bad length.
pub fn valid_id(id: &str) -> (r: Result<String, String>)
    ensures
        r is Ok <==> is_valid_code(id@),
        r matches Ok(s) ==> s@ == id@,
        r matches Err(m) ==> (m@ == if all_code_chars(id@) {
            "Id not in range or invalid length"@
        } else {
            "Invalid characters in id."@
        }),
{
    if !all_code_chars_exec(id) {
        Err(String::from_str("Invalid characters in id."))
    } else if id.unicode_len() != CODE_LEN {
        Err(String::from_str("Id not in range or invalid length"))
    } else {
        Ok(String::from_str(id))
    }
}

/// Relies on `String::push`: appends one character at the end.
#[verifier::external_body]
fn push_char(s: &mut String, c: char)
    ensures
        final(s)@ == old(s)@.push(c),
{
    s.push(c)
}

#[verifier::external_type_specification]
#[verifier::external_body]
pub struct ExThreadRng(rand::rngs::ThreadRng);

/// Relies on `rand::rng`: a handle on the thread-local generator.
pub assume_specification[ rand::rng ]() -> rand::rngs::ThreadRng;

/// Relies on `rand::distr::Alphanumeric`, which samples uniformly from the
/// bytes `A-Z`, `a-z` and `0-9`.
#[verifier::external_body]
fn sample_code_char(rng: &mut rand::rngs::ThreadRng) -> (c: char)
    ensures
        is_code_char(c),
{
    rng.sample(rand::distr::Alphanumeric) as char
}

/// Draws a fresh share code, each character uniformly from the 62 ASCII
/// letters and digits. Nothing checks the code against those already in use
/// on the server: two uploads may, with very small probability, collide.
pub fn generate_id() -> (r: String)
    ensures
        is_valid_code(r@),
{
    let mut rng = rand::rng();
    let mut code = String::new();
    let mut i: usize = 0;
    while i < CODE_LEN
        invariant
            i <= CODE_LEN,
            code@.len() == i,
            all_code_chars(code@),
        decreases CODE_LEN - i,
    {
        let c = sample_code_char(&mut rng);
        push_char(&mut code, c);
        i = i + 1;
    }
    code
}

/// A generated code always passes validation.
pub proof fn lemma_generated_code_validates(code: Seq<char>)
    requires
        is_valid_code(code),
    ensures
        validate_spec(code) == Ok::<(), TransferError>(()),
{
}

} // verus!
