//! Validated names: non-empty strings, trimmed of surrounding whitespace.

use crate::error::ValidationError;
use vstd::prelude::*;
use vstd::string::StrSliceExecFns;

verus! {

/// Is the character one of the whitespace characters that trimming removes?
pub open spec fn spec_is_space(c: char) -> bool {
    ||| c == '\u{9}'
    ||| c == '\u{A}'
    ||| c == '\u{B}'
    ||| c == '\u{C}'
    ||| c == '\u{D}'
    ||| c == ' '
    ||| c == '\u{85}'
    ||| c == '\u{A0}'
    ||| c == '\u{1680}'
    ||| c == '\u{2000}'
    ||| c == '\u{2001}'
    ||| c == '\u{2002}'
    ||| c == '\u{2003}'
    ||| c == '\u{2004}'
    ||| c == '\u{2005}'
    ||| c == '\u{2006}'
    ||| c == '\u{2007}'
    ||| c == '\u{2008}'
    ||| c == '\u{2009}'
    ||| c == '\u{200A}'
    ||| c == '\u{2028}'
    ||| c == '\u{2029}'
    ||| c == '\u{202F}'
    ||| c == '\u{205F}'
    ||| c == '\u{3000}'
}

/// The sequence with its leading whitespace removed.
pub open spec fn spec_trim_front(s: Seq<char>) -> Seq<char>
    decreases s.len(),
{
    if s.len() > 0 && spec_is_space(s[0]) {
        spec_trim_front(s.drop_first())
    } else {
        s
    }
}

/// The sequence with its trailing whitespace removed.
pub open spec fn spec_trim_back(s: Seq<char>) -> Seq<char>
    decreases s.len(),
{
    if s.len() > 0 && spec_is_space(s.last()) {
        spec_trim_back(s.drop_last())
    } else {
        s
    }
}

/// The sequence with both its leading and its trailing whitespace removed.
pub open spec fn spec_trim(s: Seq<char>) -> Seq<char> {
    spec_trim_back(spec_trim_front(s))
}

proof fn lemma_trim_front_subrange(s: Seq<char>, a: int)
    requires
        0 <= a <= s.len(),
        forall|j: int| 0 <= j < a ==> spec_is_space(s[j]),
        a < s.len() ==> !spec_is_space(s[a]),
    ensures
        spec_trim_front(s) == s.subrange(a, s.len() as int),
    decreases a,
{
    if a == 0 {
        assert(s.subrange(0, s.len() as int) =~= s);
    } else {
        let t = s.drop_first();
        lemma_trim_front_subrange(t, a - 1);
        assert(t.subrange(a - 1, t.len() as int) =~= s.subrange(a, s.len() as int));
    }
}

proof fn lemma_trim_back_subrange(s: Seq<char>, b: int)
    requires
        0 <= b <= s.len(),
        forall|j: int| b <= j < s.len() ==> spec_is_space(s[j]),
        b > 0 ==> !spec_is_space(s[b - 1]),
    ensures
        spec_trim_back(s) == s.subrange(0, b),
    decreases s.len() - b,
{
    if b == s.len() {
        assert(s.subrange(0, s.len() as int) =~= s);
    } else {
        let t = s.drop_last();
        lemma_trim_back_subrange(t, b);
        assert(t.subrange(0, b) =~= s.subrange(0, b));
    }
}

fn is_space(c: char) -> (space: bool)
    ensures
        space == spec_is_space(c),
{
    c == '\u{9}' || c == '\u{A}' || c == '\u{B}' || c == '\u{C}' || c == '\u{D}' || c == ' '
        || c == '\u{85}' || c == '\u{A0}' || c == '\u{1680}' || c == '\u{2000}' || c == '\u{2001}'
        || c == '\u{2002}' || c == '\u{2003}' || c == '\u{2004}' || c == '\u{2005}'
        || c == '\u{2006}' || c == '\u{2007}' || c == '\u{2008}' || c == '\u{2009}'
        || c == '\u{200A}' || c == '\u{2028}' || c == '\u{2029}' || c == '\u{202F}'
        || c == '\u{205F}' || c == '\u{3000}'
}

/// A string that is a valid name: it holds at least one character that is not
/// whitespace, and carries no whitespace at either end.
#[derive(Clone, Debug, Eq, PartialEq)]
pub struct Name(String);

impl View for Name {
    type V = Seq<char>;

    closed spec fn view(&self) -> Seq<char> {
        self.0@
    }
}

impl Name {
    /// Creates a name from a string, if possible. Leading & trailing
    /// whitespace is removed; input that is empty, or whitespace throughout,
    /// is rejected.
    pub fn new(name: &str) -> (result: Result<Self, ValidationError>)
        ensures
            match result {
                Ok(valid) => valid@ == spec_trim(name@) && valid@.len() > 0,
                Err(ValidationError::InvalidName) => spec_trim(name@).len() == 0,
                Err(_) => false,
            },
    {
        let ghost s = name@;
        let len = name.unicode_len();
        let mut start: usize = 0;
        while start < len && is_space(name.get_char(start))
            invariant
                0 <= start <= len,
                len == s.len(),
                s == name@,
                forall|j: int| 0 <= j < start ==> spec_is_space(s[j]),
            decreases len - start,
        {
            start = start + 1;
        }
        proof {
            lemma_trim_front_subrange(s, start as int);
        }
        if start == len {
            proof {
                assert(spec_trim_front(s) =~= Seq::<char>::empty());
                assert(spec_trim(s) =~= Seq::<char>::empty());
            }
            return Err(ValidationError::InvalidName);
        }
        let mut end: usize = len;
        while end > start + 1 && is_space(name.get_char(end - 1))
            invariant
                start < end <= len,
                len == s.len(),
                s == name@,
                !spec_is_space(s[start as int]),
                forall|j: int| end <= j < len ==> spec_is_space(s[j]),
            decreases end,
        {
            end = end - 1;
        }
        let trimmed = name.substring_char(start, end);
        proof {
            let front = s.subrange(start as int, len as int);
            lemma_trim_back_subrange(front, end - start);
            assert(front.subrange(0, end - start) =~= s.subrange(start as int, end as int));
        }
        Ok(Name(trimmed.to_owned()))
    }

    pub fn name(&self) -> (name: &str)
        ensures
            name@ == self@,
    {
        self.0.as_str()
    }
}

} // verus!
