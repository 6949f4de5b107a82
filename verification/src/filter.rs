//! The filter expression that is handed to the backend: a directive for
//! every target and one for the service, both at the configured level.

use vstd::prelude::*;
use vstd::string::*;
use vstd::utf8::*;
use crate::level::LogLevel;

verus! {

/// The filter expression for a service at a level: the level's name, a
/// comma, the service name as it is, an equals sign, and the level's name
/// again.
pub open spec fn filter_expression_of(service_name: Seq<char>, level: LogLevel) -> Seq<char> {
    level.name() + seq![','] + service_name + seq!['='] + level.name()
}

/// The characters with the Unicode property `White_Space`: those that
/// trimming a string removes.
pub open spec fn is_white_space(c: char) -> bool {
    let code = c as u32;
    ||| 0x09 <= code <= 0x0D
    ||| code == 0x20
    ||| code == 0x85
    ||| code == 0xA0
    ||| code == 0x1680
    ||| 0x2000 <= code <= 0x200A
    ||| code == 0x2028
    ||| code == 0x2029
    ||| code == 0x202F
    ||| code == 0x205F
    ||| code == 0x3000
}

/// No part of the text between commas begins with white space: a white
/// space character stands neither first in the text nor right after a comma.
pub open spec fn parts_start_without_space(text: Seq<char>) -> bool {
    forall|i: int|
        0 <= i < text.len() && is_white_space(#[trigger] text[i]) ==> i > 0 && text[i - 1] != ','
}

/// The texts that the backend's directive parser can take. The parser reads
/// each part between commas at byte offsets that it finds in the trimmed
/// part and then cuts the untrimmed part at them. The offsets agree where
/// no part has leading white space, and every offset is a good place to cut
/// where each character is one byte long. On other texts it may cut inside
/// a character, which it does not survive.
pub open spec fn safe_to_parse(text: Seq<char>) -> bool {
    is_ascii_chars(text) || parts_start_without_space(text)
}

/// Whether a character has the Unicode property `White_Space`.
pub fn is_white_space_char(c: char) -> (white: bool)
    ensures
        white == is_white_space(c),
{
    let code: u32 = c as u32;
    (0x09 <= code && code <= 0x0D) || code == 0x20 || code == 0x85 || code == 0xA0 || code
        == 0x1680 || (0x2000 <= code && code <= 0x200A) || code == 0x2028 || code == 0x2029 || code
        == 0x202F || code == 0x205F || code == 0x3000
}

/// Whether the backend's directive parser can take a text: a service name,
/// or a whole filter expression.
pub fn is_safe_to_parse(text: &str) -> (safe: bool)
    ensures
        safe == safe_to_parse(text@),
{
    if text.is_ascii() {
        return true;
    }
    let mut after_comma = true;
    for c in it: text.chars()
        invariant
            it.seq() == text@,
            !is_ascii_chars(text@),
            after_comma == (it.index() == 0 || text@[it.index() - 1] == ','),
            forall|i: int|
                0 <= i < it.index() && is_white_space(#[trigger] text@[i]) ==> i > 0 && text@[i
                    - 1] != ',',
    {
        if after_comma && is_white_space_char(c) {
            return false;
        }
        after_comma = c == ',';
    }
    true
}

/// Builds the filter expression for a service at a level.
pub fn filter_expression(service_name: &str, level: LogLevel) -> (filter: String)
    ensures
        filter@ == filter_expression_of(service_name@, level),
{
    let name = level.as_str();
    let mut filter = String::from_str(name);
    filter.append(",");
    filter.append(service_name);
    filter.append("=");
    filter.append(name);
    proof {
        reveal_strlit(",");
        reveal_strlit("=");
        assert(","@ =~= seq![',']);
        assert("="@ =~= seq!['=']);
    }
    filter
}

/// The backend's parser can take the filter expression of a service name
/// exactly when it can take the service name.
pub proof fn lemma_filter_expression_safe(service_name: Seq<char>, level: LogLevel)
    ensures
        safe_to_parse(filter_expression_of(service_name, level)) <==> safe_to_parse(service_name),
{
    let name = level.name();
    let filter = filter_expression_of(service_name, level);
    let start = (name.len() + 1) as int;
    reveal_strlit("error");
    reveal_strlit("warn");
    reveal_strlit("info");
    reveal_strlit("debug");
    reveal_strlit("trace");
    assert(forall|j: int| 0 <= j < service_name.len() ==> filter[start + j] == service_name[j]);
    if is_ascii_chars(filter) {
        assert forall|j: int| 0 <= j < service_name.len() implies '\0' <= #[trigger] service_name[j]
            <= '\u{7f}' by {
            assert(filter[start + j] == service_name[j]);
        }
    }
    if parts_start_without_space(service_name) {
        assert forall|i: int| 0 <= i < filter.len() && is_white_space(#[trigger] filter[i]) implies i
            > 0 && filter[i - 1] != ',' by {
            if start <= i < start + service_name.len() {
                assert(filter[i] == service_name[i - start]);
                assert(filter[start + (i - start - 1)] == service_name[i - start - 1]);
            }
        }
    }
    if parts_start_without_space(filter) {
        assert forall|j: int|
            0 <= j < service_name.len() && is_white_space(
                #[trigger] service_name[j],
            ) implies j > 0 && service_name[j - 1] != ',' by {
            assert(filter[start + j] == service_name[j]);
            if j > 0 {
                assert(filter[start + (j - 1)] == service_name[j - 1]);
            }
        }
    }
}

} // verus!
