//! Building argument lists token by token.

use vstd::prelude::*;
use crate::compliance::{codec_allowed, is_codec_allowed};
use crate::text::texts;

verus! {

/// Appends a copy of `token` to `list`.
pub fn push_text(list: &mut Vec<String>, token: &str)
    ensures
        texts(final(list)@) == texts(old(list)@).push(token@),
{
    list.push(token.to_owned());
    assert(texts(list@) =~= texts(old(list)@).push(token@));
}

/// An option and its value as two tokens, or no token where the option is
/// switched off.
pub open spec fn flag(on: bool, name: Seq<char>, value: Seq<char>) -> Seq<Seq<char>> {
    if on {
        seq![name, value]
    } else {
        Seq::empty()
    }
}

/// One token, or none where it is switched off.
pub open spec fn single(on: bool, token: Seq<char>) -> Seq<Seq<char>> {
    if on {
        seq![token]
    } else {
        Seq::empty()
    }
}

/// Appends an option and its value to `list`.
pub fn push_flag(list: &mut Vec<String>, name: &str, value: &str)
    ensures
        texts(final(list)@) == texts(old(list)@) + flag(true, name@, value@),
{
    list.push(name.to_owned());
    list.push(value.to_owned());
    assert(texts(list@) =~= texts(old(list)@) + flag(true, name@, value@));
}

/// Appends an option and its value to `list` where `on` holds, and nothing
/// otherwise.
pub fn push_flag_if(list: &mut Vec<String>, on: bool, name: &str, value: &str)
    ensures
        texts(final(list)@) == texts(old(list)@) + flag(on, name@, value@),
{
    if on {
        push_flag(list, name, value);
    } else {
        assert(texts(list@) =~= texts(old(list)@) + flag(on, name@, value@));
    }
}

/// Appends `token` to `list` where `on` holds, and nothing otherwise.
pub fn push_text_if(list: &mut Vec<String>, on: bool, token: &str)
    ensures
        texts(final(list)@) == texts(old(list)@) + single(on, token@),
{
    if on {
        push_text(list, token);
    }
    assert(texts(list@) =~= texts(old(list)@) + single(on, token@));
}

/// Writing three lists one after another gives the same list whichever two
/// are joined first.
pub proof fn lemma_concat_assoc<A>(a: Seq<A>, b: Seq<A>, c: Seq<A>)
    ensures
        (a + b) + c == a + (b + c),
{
    assert((a + b) + c =~= a + (b + c));
}

/// Appends `name` and the first allowed codec to `command` where the list
/// does not allow `codec`.
pub fn push_codec_override(command: &mut Vec<String>, name: &str, allowed: &Vec<String>, codec: &str)
    ensures
        texts(final(command)@) == texts(old(command)@) + flag(
            !codec_allowed(allowed@, codec@),
            name@,
            allowed@[0]@,
        ),
{
    if !is_codec_allowed(allowed, codec) {
        push_flag(command, name, allowed[0].as_str());
    } else {
        assert(texts(command@) =~= texts(old(command)@) + flag(false, name@, allowed@[0]@));
    }
}

} // verus!
