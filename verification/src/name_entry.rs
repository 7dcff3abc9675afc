use vstd::prelude::*;
use vstd::string::StringSliceAdditionalSpecFns;
use vstd::utf8::{encode_scalar, encode_utf8};

verus! {

/// A name being typed may grow while it is shorter than this many bytes.
pub const NAME_INPUT_MAX_BYTES: usize = 12;

/// The name given to a player who confirms an empty name on the on-screen keyboard.
pub open spec fn anonymous_name() -> Seq<char> {
    "Anonymous"@
}

/// Whether `c` is alphabetic or numeric in the Unicode sense, as `char::is_alphanumeric` says.
pub uninterp spec fn char_is_alphanumeric(c: char) -> bool;

/// `char::is_alphanumeric`: the result is the named predicate of the character.
#[verifier::external_body]
fn is_alphanumeric(c: char) -> (r: bool)
    ensures
        r == char_is_alphanumeric(c),
{
    c.is_alphanumeric()
}

/// `String::push`: appends the character.
#[verifier::external_body]
fn push_char(s: &mut String, c: char)
    ensures
        final(s)@ == old(s)@.push(c),
{
    s.push(c)
}

/// `String::pop`: removes and returns the last character, if there is one.
#[verifier::external_body]
fn pop_char(s: &mut String) -> (r: Option<char>)
    ensures
        old(s)@.len() == 0 ==> r is None && final(s)@ == old(s)@,
        old(s)@.len() > 0 ==> r == Some(old(s)@.last()) && final(s)@ == old(s)@.drop_last(),
{
    s.pop()
}

/// `String::clear`: empties the string.
#[verifier::external_body]
fn clear_string(s: &mut String)
    ensures
        final(s)@ == Seq::<char>::empty(),
{
    s.clear()
}

/// Length of a name in bytes, as UTF-8.
pub open spec fn byte_len(s: Seq<char>) -> nat {
    encode_utf8(s).len()
}

/// The name after one typed character: it is appended when it is alphanumeric and the
/// name is shorter than twelve bytes, else ignored.
pub open spec fn after_typing(s: Seq<char>, c: char) -> Seq<char> {
    if char_is_alphanumeric(c) && byte_len(s) < NAME_INPUT_MAX_BYTES {
        s.push(c)
    } else {
        s
    }
}

/// The name after a backspace: its last character is removed, if it has one.
pub open spec fn after_backspace(s: Seq<char>) -> Seq<char> {
    if s.len() > 0 { s.drop_last() } else { s }
}

/// The name that a text confirmed on the on-screen keyboard gives: the text itself,
/// or "Anonymous" when it is empty.
pub open spec fn confirmed_name(text: Seq<char>) -> Seq<char> {
    if text.len() == 0 || text == anonymous_name() { anonymous_name() } else { text }
}

/// Number of bytes that `s` takes in UTF-8.
pub fn name_byte_len(s: &String) -> (n: usize)
    requires
        byte_len(s@) <= usize::MAX,
    ensures
        n == byte_len(s@),
{
    s.as_str().len()
}

/// Types one character into the name being entered (see [`after_typing`]).
pub fn type_char(s: &mut String, c: char)
    requires
        byte_len(old(s)@) <= usize::MAX,
    ensures
        final(s)@ == after_typing(old(s)@, c),
{
    if is_alphanumeric(c) && name_byte_len(s) < NAME_INPUT_MAX_BYTES {
        push_char(s, c);
    }
}

/// Removes the last character of the name being entered, if any.
pub fn erase_char(s: &mut String)
    ensures
        final(s)@ == after_backspace(old(s)@),
{
    let _ = pop_char(s);
}

/// Empties the name being entered.
pub fn clear_name(s: &mut String)
    ensures
        final(s)@ == Seq::<char>::empty(),
{
    clear_string(s);
}

/// The player name that a text confirmed on the on-screen keyboard gives
/// (see [`confirmed_name`]).
pub fn resolve_confirmed_name(text: String) -> (r: String)
    ensures
        r@ == confirmed_name(text@),
{
    let anonymous = "Anonymous".to_owned();
    if text.as_str().is_empty() || text == anonymous {
        anonymous
    } else {
        text
    }
}

/// Typing keeps a name made of alphanumeric characters only.
pub proof fn lemma_typed_names_are_alphanumeric(s: Seq<char>, c: char)
    requires
        forall|i: int| 0 <= i < s.len() ==> char_is_alphanumeric(#[trigger] s[i]),
    ensures
        forall|i: int| 0 <= i < after_typing(s, c).len() ==> char_is_alphanumeric(#[trigger] after_typing(s, c)[i]),
{
}

/// A name that was full (twelve bytes or more) does not grow.
pub proof fn lemma_full_name_does_not_grow(s: Seq<char>, c: char)
    requires
        byte_len(s) >= NAME_INPUT_MAX_BYTES,
    ensures
        after_typing(s, c) == s,
{
}

/// Encoding a name with one more character appends that character's encoding.
pub proof fn lemma_encode_push(s: Seq<char>, c: char)
    ensures
        encode_utf8(s.push(c)) == encode_utf8(s) + encode_scalar(c as u32),
    decreases s.len(),
{
    if s.len() == 0 {
        assert(s.push(c).drop_first() == Seq::<char>::empty());
        assert(encode_utf8(Seq::<char>::empty()) == Seq::<u8>::empty());
        assert(encode_utf8(s.push(c)) == encode_scalar(c as u32) + Seq::<u8>::empty());
    } else {
        assert(s.push(c).drop_first() == s.drop_first().push(c));
        lemma_encode_push(s.drop_first(), c);
        assert(s.push(c)[0] == s[0]);
    }
}

/// One character takes between one and four bytes.
pub proof fn lemma_scalar_width(c: char)
    ensures
        1 <= encode_scalar(c as u32).len() <= 4,
{
}

/// A name stays within fifteen bytes while it is typed: it only grows when it is below
/// twelve bytes, by one character of at most four bytes.
pub proof fn lemma_typed_name_stays_short(s: Seq<char>, c: char)
    requires
        byte_len(s) <= NAME_INPUT_MAX_BYTES + 3,
    ensures
        byte_len(after_typing(s, c)) <= NAME_INPUT_MAX_BYTES + 3,
{
    lemma_encode_push(s, c);
    lemma_scalar_width(c);
}

/// A backspace never lengthens a name, and keeps it made of alphanumeric characters
/// when it was.
pub proof fn lemma_backspace_keeps_name_valid(s: Seq<char>)
    ensures
        byte_len(after_backspace(s)) <= byte_len(s),
        (forall|i: int| 0 <= i < s.len() ==> char_is_alphanumeric(#[trigger] s[i]))
            ==> forall|i: int| 0 <= i < after_backspace(s).len() ==> char_is_alphanumeric(#[trigger] after_backspace(s)[i]),
{
    if s.len() > 0 {
        assert(s.drop_last().push(s.last()) == s);
        lemma_encode_push(s.drop_last(), s.last());
    }
}

/// A confirmed name is never empty.
pub proof fn lemma_confirmed_name_not_empty(text: Seq<char>)
    ensures
        confirmed_name(text).len() > 0,
{
    reveal_strlit("Anonymous");
}

} // verus!
