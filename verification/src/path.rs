use vstd::prelude::*;

use crate::text::{chars_of, push_char};

verus! {

/// The path that joining `part` onto `base` gives on Unix: an absolute
/// `part` replaces `base`; otherwise a `/` is put between them unless
/// `base` is empty or already ends in one.
pub open spec fn path_join(base: Seq<char>, part: Seq<char>) -> Seq<char> {
    if part.len() > 0 && part[0] == '/' {
        part
    } else if base.len() > 0 && base[base.len() - 1] != '/' {
        base + seq!['/'] + part
    } else {
        base + part
    }
}

/// Joins `part` onto the path `base`.
pub fn join(base: &str, part: &str) -> (r: String)
    ensures
        r@ == path_join(base@, part@),
{
    let part_chars = chars_of(part);
    if part_chars.len() > 0 && part_chars[0] == '/' {
        return part.to_owned();
    }
    let base_chars = chars_of(base);
    let mut joined = base.to_owned();
    if base_chars.len() > 0 && base_chars[base_chars.len() - 1] != '/' {
        push_char(&mut joined, '/');
    }
    joined.append(part);
    joined
}

} // verus!
