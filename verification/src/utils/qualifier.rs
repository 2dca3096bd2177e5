//! Fully qualified identifiers.

use vstd::prelude::*;
use vstd::string::StrSliceExecFns;

verus! {

/// Whether `c` is a lower-case letter or a digit.
pub open spec fn is_lower_alnum(c: char) -> bool {
    ('a' <= c <= 'z') || ('0' <= c <= '9')
}

/// Whether the text is `prefix:method:rest` with the first colon at `first`
/// and the second at `second`: prefix and method are made of lower-case
/// letters and digits, at least one each, and the rest holds no line break.
pub open spec fn qualified_at(text: Seq<char>, first: int, second: int) -> bool {
    &&& 0 < first
    &&& first + 1 < second < text.len()
    &&& text[first] == ':'
    &&& text[second] == ':'
    &&& forall|k: int| 0 <= k < first ==> is_lower_alnum(#[trigger] text[k])
    &&& forall|k: int| first < k < second ==> is_lower_alnum(#[trigger] text[k])
    &&& forall|k: int| second < k < text.len() ==> #[trigger] text[k] != '\n'
}

/// Whether an identifier is fully qualified: of the form `prefix:method:rest`.
pub open spec fn fully_qualified(text: Seq<char>) -> bool {
    exists|first: int, second: int| qualified_at(text, first, second)
}

/// Whether the identifier `entity` is fully qualified.
pub fn is_fully_qualified(entity: &str) -> (qualified: bool)
    ensures
        qualified == fully_qualified(entity@),
{
    let len = entity.unicode_len();
    let mut first: usize = 0;
    while first < len && entity.get_char(first) != ':'
        invariant
            first <= len,
            len == entity@.len(),
            forall|k: int| 0 <= k < first ==> entity@[k] != ':',
            forall|k: int| 0 <= k < first ==> is_lower_alnum(entity@[k]),
            forall|a: int, b: int| qualified_at(entity@, a, b) ==> a >= first,
        decreases len - first,
    {
        let c = entity.get_char(first);
        if !(('a' <= c && c <= 'z') || ('0' <= c && c <= '9')) {
            assert forall|a: int, b: int| !qualified_at(entity@, a, b) by {
                if qualified_at(entity@, a, b) {
                    assert(is_lower_alnum(entity@[first as int]));
                }
            }
            return false;
        }
        first += 1;
        assert forall|a: int, b: int| qualified_at(entity@, a, b) implies a >= first by {
            if a == first - 1 {
                assert(entity@[a] == ':');
            }
        }
    }
    if first == 0 || first >= len {
        assert forall|a: int, b: int| !qualified_at(entity@, a, b) by {
            if qualified_at(entity@, a, b) {
                if first == 0 {
                    assert(is_lower_alnum(entity@[0]));
                }
            }
        }
        return false;
    }
    assert forall|a: int, b: int| qualified_at(entity@, a, b) implies a == first by {
        if a > first {
            assert(is_lower_alnum(entity@[first as int]));
        }
    }
    let mut second: usize = first + 1;
    while second < len && entity.get_char(second) != ':'
        invariant
            first < second <= len,
            len == entity@.len(),
            forall|k: int| first < k < second ==> entity@[k] != ':',
            forall|k: int| first < k < second ==> is_lower_alnum(entity@[k]),
            forall|a: int, b: int| qualified_at(entity@, a, b) ==> a == first,
            forall|a: int, b: int| qualified_at(entity@, a, b) ==> b >= second,
        decreases len - second,
    {
        let c = entity.get_char(second);
        if !(('a' <= c && c <= 'z') || ('0' <= c && c <= '9')) {
            assert forall|a: int, b: int| !qualified_at(entity@, a, b) by {
                if qualified_at(entity@, a, b) {
                    assert(is_lower_alnum(entity@[second as int]));
                }
            }
            return false;
        }
        second += 1;
        assert forall|a: int, b: int| qualified_at(entity@, a, b) implies b >= second by {
            if b == second - 1 {
                assert(entity@[b] == ':');
            }
        }
    }
    if second == first + 1 || second >= len {
        assert forall|a: int, b: int| !qualified_at(entity@, a, b) by {
            if qualified_at(entity@, a, b) {
                if second == first + 1 {
                    assert(is_lower_alnum(entity@[second as int]));
                }
            }
        }
        return false;
    }
    assert forall|a: int, b: int| qualified_at(entity@, a, b) implies b == second by {
        if b > second {
            assert(is_lower_alnum(entity@[second as int]));
        }
    }
    let mut rest: usize = second + 1;
    while rest < len
        invariant
            second < rest <= len,
            len == entity@.len(),
            forall|k: int| second < k < rest ==> entity@[k] != '\n',
        decreases len - rest,
    {
        if entity.get_char(rest) == '\n' {
            assert forall|a: int, b: int| !qualified_at(entity@, a, b) by {
                if qualified_at(entity@, a, b) {
                    assert(entity@[rest as int] != '\n');
                }
            }
            return false;
        }
        rest += 1;
    }
    assert(qualified_at(entity@, first as int, second as int));
    true
}

} // verus!
