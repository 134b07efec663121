use crate::model::Error;
use vstd::prelude::*;

verus! {

/// Whether `c` is in the Unicode word class `\w`.
pub uninterp spec fn word_char(c: char) -> bool;

/// The ASCII word characters: `[0-9A-Za-z_]`.
pub open spec fn ascii_word_char(c: char) -> bool {
    ||| c == '_'
    ||| 48 <= c as u32 <= 57
    ||| 65 <= c as u32 <= 90
    ||| 97 <= c as u32 <= 122
}

/// Relies on regex_syntax::is_word_character: membership in the Unicode
/// class `\w`, which on ASCII is exactly `[0-9A-Za-z_]`.
#[verifier::external_body]
fn is_word_char(c: char) -> (r: bool)
    ensures
        r == word_char(c),
        (c as u32) < 128 ==> r == ascii_word_char(c),
{
    regex_syntax::is_word_character(c)
}

/// A valid manifest name matches `^\w+(\.\w+)*$`: runs of word characters
/// joined by single dots. So it is not empty, starts and ends with a word
/// character, holds nothing but word characters and dots, and every dot is
/// followed by a word character.
pub open spec fn valid_name(s: Seq<char>) -> bool {
    &&& s.len() > 0
    &&& word_char(s[0])
    &&& word_char(s.last())
    &&& forall|i: int| 0 <= i < s.len() ==> #[trigger] s[i] == '.' || word_char(s[i])
    &&& forall|i: int| 0 <= i < s.len() - 1 && #[trigger] s[i] == '.' ==> word_char(s[i + 1])
}

/// Checks that `name` is a valid manifest name.
pub fn validate_name(name: &str) -> (r: Result<(), Error>)
    ensures
        r is Ok <==> valid_name(name@),
        r is Err ==> r == Err::<(), Error>(Error::InvalidName),
{
    let n = name.unicode_len();
    if n == 0 {
        return Err(Error::InvalidName);
    }
    let mut after_dot = true;
    let mut i: usize = 0;
    while i < n
        invariant
            n == name@.len(),
            0 <= i <= n,
            after_dot == (i == 0 || name@[i - 1] == '.'),
            after_dot ==> i == 0 || !word_char(name@[i - 1]),
            i > 0 ==> word_char(name@[0]),
            forall|j: int| 0 <= j < i ==> #[trigger] name@[j] == '.' || word_char(name@[j]),
            forall|j: int|
                0 <= j < i - 1 && #[trigger] name@[j] == '.' ==> word_char(name@[j + 1]),
        decreases n - i,
    {
        let c = name.get_char(i);
        let w = is_word_char(c);
        if w {
            after_dot = false;
        } else if c == '.' && !after_dot {
            after_dot = true;
        } else {
            assert(!valid_name(name@)) by {
                if c == '.' {
                    if i == 0 {
                        assert(!word_char(name@[0]));
                    } else {
                        assert(name@[i - 1] == '.');
                        assert(!word_char(name@[i as int - 1 + 1]));
                    }
                } else {
                    assert(!(name@[i as int] == '.' || word_char(name@[i as int])));
                }
            }
            return Err(Error::InvalidName);
        }
        i = i + 1;
    }
    if after_dot {
        assert(!word_char(name@.last()));
        return Err(Error::InvalidName);
    }
    Ok(())
}

} // verus!
