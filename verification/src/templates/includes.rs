//! Templates that include other templates, which the library does not take:
//! two templates that include each other would never finish rendering.

use crate::text::chars_of;
use vstd::prelude::*;

verus! {

/// Whether `c` may stand between the opening braces of a tag and the sign
/// that makes the tag an inclusion: whitespace, the sign that trims
/// whitespace, and the sign of a block.
pub open spec fn is_tag_filler(c: char) -> bool {
    c == ' ' || c == '\t' || c == '\n' || c == '\r' || c == '~' || c == '#'
}

/// Whether a tag opens at `open` in `source` and the sign of inclusion
/// stands at `sign`, with nothing but filler between the braces and the sign.
pub open spec fn is_inclusion(source: Seq<char>, open: int, sign: int) -> bool {
    &&& 0 <= open
    &&& open + 2 <= sign < source.len()
    &&& source[open] == '{'
    &&& source[open + 1] == '{'
    &&& source[sign] == '>'
    &&& forall|k: int| open + 2 <= k < sign ==> is_tag_filler(#[trigger] source[k])
}

/// Whether the text of a template may include another template. Every tag
/// that includes one is found; so is, to be on the safe side, any other
/// place where the sign of inclusion follows two opening braces.
pub open spec fn includes_templates_spec(source: Seq<char>) -> bool {
    exists|open: int, sign: int| is_inclusion(source, open, sign)
}

/// Whether the text of a template may include another template.
pub fn includes_templates(source: &str) -> (found: bool)
    ensures
        found == includes_templates_spec(source@),
{
    let chars = chars_of(source);
    let mut open: usize = 0;
    while open < chars.len()
        invariant
            open <= chars.len(),
            chars@ == source@,
            forall|at: int, sign: int| 0 <= at < open ==> !is_inclusion(source@, at, sign),
        decreases chars.len() - open,
    {
        if chars[open] == '{' && chars.len() - open >= 2 && chars[open + 1] == '{' {
            let mut sign: usize = open + 2;
            while sign < chars.len() && (chars[sign] == ' ' || chars[sign] == '\t' || chars[sign]
                == '\n' || chars[sign] == '\r' || chars[sign] == '~' || chars[sign] == '#')
                invariant
                    open + 2 <= sign <= chars.len(),
                    chars@ == source@,
                    forall|k: int| open + 2 <= k < sign ==> is_tag_filler(#[trigger] source@[k]),
                decreases chars.len() - sign,
            {
                sign += 1;
            }
            if sign < chars.len() && chars[sign] == '>' {
                assert(is_inclusion(source@, open as int, sign as int));
                return true;
            }
            assert forall|other: int| !is_inclusion(source@, open as int, other) by {
                if is_inclusion(source@, open as int, other) {
                    if other < sign {
                        assert(is_tag_filler(source@[other]));
                    } else if other > sign {
                        assert(is_tag_filler(source@[sign as int]));
                    }
                }
            }
        }
        open += 1;
    }
    false
}

} // verus!
