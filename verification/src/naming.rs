//! Names: the default operation names and the labels of variants.

use vstd::prelude::*;

verus! {

broadcast use vstd::string::group_string_axioms;

/// Default name for the operation that reads a field.
pub fn default_value_fn() -> (name: String)
    ensures
        name@ == "value"@,
{
    "value".to_string()
}

/// Default name for the operation that writes a field.
pub fn default_update_fn() -> (name: String)
    ensures
        name@ == "update"@,
{
    "update".to_string()
}

/// Default name for the operation that lists the fields.
pub fn default_fields_fn() -> (name: String)
    ensures
        name@ == "fields"@,
{
    "fields".to_string()
}

/// The uppercase form of a character as Unicode defines it: one character or more.
pub uninterp spec fn uppercase_mapping(c: char) -> Seq<char>;

/// Calls `char::to_uppercase` and collects what it yields.
/// The contract names that sequence; it says nothing else about it.
#[verifier::external_body]
fn uppercase(c: char) -> (up: Vec<char>)
    ensures
        up@ == uppercase_mapping(c),
{
    c.to_uppercase().collect()
}

/// Calls `String::push`, which appends one character to the end of the string.
#[verifier::external_body]
fn push_char(s: &mut String, c: char)
    ensures
        final(s)@ == old(s)@.push(c),
{
    s.push(c)
}

/// Whether position `i` of `s` begins a word: it is the first position, or it
/// follows an underscore.
pub open spec fn starts_word(s: Seq<char>, i: int) -> bool {
    i == 0 || s[i - 1] == '_'
}

/// What position `i` of `s` contributes to the label: nothing for an
/// underscore, the uppercase form for the first character of a word, the
/// character itself otherwise.
pub open spec fn label_piece(s: Seq<char>, i: int) -> Seq<char> {
    if s[i] == '_' {
        Seq::empty()
    } else if starts_word(s, i) {
        uppercase_mapping(s[i])
    } else {
        seq![s[i]]
    }
}

/// The pieces of the first `n` positions of `s`, one after the other.
pub open spec fn pascal_prefix(s: Seq<char>, n: nat) -> Seq<char>
    decreases n,
{
    if n == 0 {
        Seq::empty()
    } else {
        pascal_prefix(s, (n - 1) as nat) + label_piece(s, n - 1)
    }
}

/// The label derived from a snake-case identifier: the underscores leave, and
/// each word starts with its uppercase form.
pub open spec fn pascal_case(s: Seq<char>) -> Seq<char> {
    pascal_prefix(s, s.len())
}

/// Converts a snake-case identifier to a capitalized-word-join label.
pub fn to_pascal_case(s: &str) -> (label: String)
    ensures
        label@ == pascal_case(s@),
{
    let mut label = String::new();
    let mut word_start = true;
    let chars = s.chars();
    for c in it: chars
        invariant
            it.seq() == s@,
            label@ == pascal_prefix(s@, it.index() as nat),
            word_start == starts_word(s@, it.index()),
    {
        if c == '_' {
            word_start = true;
        } else if word_start {
            let up = uppercase(c);
            let mut k: usize = 0;
            while k < up.len()
                invariant
                    k <= up.len(),
                    label@ == pascal_prefix(s@, it.index() as nat) + up@.take(k as int),
                decreases up.len() - k,
            {
                push_char(&mut label, up[k]);
                k += 1;
            }
            word_start = false;
        } else {
            push_char(&mut label, c);
            word_start = false;
        }
    }
    label
}

} // verus!
