//! The branding identifier: the token under which the operating system's shell
//! groups the application's windows, and its form as a wide string.

use vstd::prelude::*;
use vstd::string::StrSliceExecFns;
use vstd::utf8::char_is_scalar;

verus! {

/// The application's identity token.
pub const APP_USER_MODEL_ID: &'static str = "com.piksel.chat";

/// The UTF-16 code units of one character: the character's code where it is
/// below 0x10000, and a surrogate pair otherwise.
pub open spec fn utf16_units(c: char) -> Seq<u16> {
    let code = c as u32;
    if code < 0x10000 {
        seq![code as u16]
    } else {
        seq![
            (0xD800 + (code - 0x10000) / 0x400) as u16,
            (0xDC00 + (code - 0x10000) % 0x400) as u16,
        ]
    }
}

/// The UTF-16 code units of a text: those of its characters, in order.
pub open spec fn utf16_text(text: Seq<char>) -> Seq<u16>
    decreases text.len(),
{
    if text.len() == 0 {
        Seq::empty()
    } else {
        utf16_text(text.drop_last()) + utf16_units(text.last())
    }
}

/// A text as a wide string: its UTF-16 code units, then the terminating zero.
pub open spec fn wide_string(text: Seq<char>) -> Seq<u16> {
    utf16_text(text).push(0u16)
}

/// Encodes `text` as UTF-16.
pub fn encode_wide(text: &str) -> (units: Vec<u16>)
    ensures
        units@ == utf16_text(text@),
{
    let count = text.unicode_len();
    let mut units: Vec<u16> = Vec::new();
    let mut at: usize = 0;
    while at < count
        invariant
            at <= count,
            count == text@.len(),
            units@ == utf16_text(text@.take(at as int)),
        decreases count - at,
    {
        let c = text.get_char(at);
        let code: u32 = c as u32;
        proof {
            char_is_scalar(c);
            assert(text@.take(at as int + 1).drop_last() == text@.take(at as int));
            assert(text@.take(at as int + 1).last() == c);
        }
        if code < 0x10000 {
            units.push(code as u16);
        } else {
            let rest: u32 = code - 0x10000;
            units.push((0xD800 + rest / 0x400) as u16);
            units.push((0xDC00 + rest % 0x400) as u16);
        }
        assert(units@ == utf16_text(text@.take(at as int)) + utf16_units(c));
        at = at + 1;
    }
    assert(text@.take(at as int) == text@);
    units
}

/// Encodes `text` as a wide string with its terminating zero.
pub fn to_wide_string(text: &str) -> (units: Vec<u16>)
    ensures
        units@ == wide_string(text@),
{
    let mut units = encode_wide(text);
    units.push(0u16);
    units
}

/// The application's identity token as a wide string, as the operating system
/// takes it.
pub fn app_user_model_id_wide() -> (units: Vec<u16>)
    ensures
        units@ == wide_string(APP_USER_MODEL_ID@),
{
    to_wide_string(APP_USER_MODEL_ID)
}

/// A text of characters below 0x10000 has one code unit for each character,
/// which is the character's code.
pub proof fn lemma_utf16_of_basic_text(text: Seq<char>)
    requires
        forall|k: int| 0 <= k < text.len() ==> (text[k] as u32) < 0x10000,
    ensures
        utf16_text(text).len() == text.len(),
        forall|k: int| 0 <= k < text.len() ==> utf16_text(text)[k] == text[k] as u32,
    decreases text.len(),
{
    if text.len() > 0 {
        lemma_utf16_of_basic_text(text.drop_last());
    }
}

/// A text without the zero character has no zero code unit, so the
/// terminating zero of its wide string is the first.
pub proof fn lemma_wide_string_terminator(text: Seq<char>)
    requires
        forall|k: int| 0 <= k < text.len() ==> text[k] as u32 != 0,
    ensures
        wide_string(text).last() == 0,
        forall|k: int| 0 <= k < wide_string(text).len() - 1 ==> wide_string(text)[k] != 0,
    decreases text.len(),
{
    if text.len() > 0 {
        let front = text.drop_last();
        lemma_wide_string_terminator(front);
        char_is_scalar(text.last());
        assert forall|k: int| 0 <= k < utf16_text(text).len() implies utf16_text(text)[k] != 0 by {
            if k < utf16_text(front).len() {
                assert(utf16_text(text)[k] == wide_string(front)[k]);
            }
        }
    }
}

/// The identity token is fifteen characters of ASCII, so its wide string is
/// those fifteen codes and the terminating zero.
pub proof fn lemma_app_user_model_id_wide()
    ensures
        wide_string(APP_USER_MODEL_ID@) == seq![
            99u16, 111u16, 109u16, 46u16, 112u16, 105u16, 107u16, 115u16, 101u16, 108u16, 46u16,
            99u16, 104u16, 97u16, 116u16, 0u16,
        ],
{
    reveal_strlit("com.piksel.chat");
    lemma_utf16_of_basic_text(APP_USER_MODEL_ID@);
    assert(wide_string(APP_USER_MODEL_ID@) =~= seq![
        99u16, 111u16, 109u16, 46u16, 112u16, 105u16, 107u16, 115u16, 101u16, 108u16, 46u16,
        99u16, 104u16, 97u16, 116u16, 0u16,
    ]);
}

} // verus!
