//! Failure handling: impossible states, and propagating absence.
//!
//! An unrecoverable failure corresponds to a state a verified function
//! proves unreachable; a recoverable one is an `Option` or `Result`
//! value the caller examines.
use vstd::prelude::*;
use vstd::string::*;

verus! {

/// Where an unverified program would abort at run time on an
/// inconsistent state, a verified function shows the state cannot
/// arise in the first place.
pub fn panic_syntax() {
    let a: i32 = 1;
    assert(a != 0);
}

/// The position of the first line break in `s`, or `s.len()` when
/// there is none.
pub open spec fn first_newline(s: Seq<char>) -> int
    decreases s.len(),
{
    if s.len() == 0 {
        0
    } else if s[0] == '\n' {
        0
    } else {
        1 + first_newline(s.drop_first())
    }
}

/// A scan that saw no line break before `i`, and one at `i` unless the
/// end was reached, has found `first_newline`.
pub proof fn lemma_first_newline_position(s: Seq<char>, i: int)
    requires
        0 <= i <= s.len(),
        forall|j: int| 0 <= j < i ==> s[j] != '\n',
        i < s.len() ==> s[i] == '\n',
    ensures
        first_newline(s) == i,
    decreases i,
{
    if i > 0 {
        assert(s[0] != '\n');
        assert(forall|j: int| 0 <= j < i - 1 ==> s.drop_first()[j] == s[j + 1]);
        lemma_first_newline_position(s.drop_first(), i - 1);
    }
}

/// The last character of the first line of `text`, or `None` when the
/// first line is empty. Absence propagates to the caller instead of
/// halting the program.
pub fn last_char_of_first_line(text: &str) -> (r: Option<char>)
    ensures
        r == if first_newline(text@) == 0 {
            None::<char>
        } else {
            Some(text@[first_newline(text@) - 1])
        },
{
    let len: usize = text.unicode_len();
    let mut i: usize = 0;

    while i < len
        invariant
            len == text@.len(),
            0 <= i <= len,
            forall|j: int| 0 <= j < i ==> text@[j] != '\n',
        decreases len - i,
    {
        let c: char = text.get_char(i);
        if c == '\n' {
            proof {
                lemma_first_newline_position(text@, i as int);
            }
            if i == 0 {
                return None;
            }
            let last: char = text.get_char(i - 1);
            return Some(last);
        }
        i += 1;
    }

    proof {
        lemma_first_newline_position(text@, len as int);
    }
    if len == 0 {
        None
    } else {
        let last: char = text.get_char(len - 1);
        Some(last)
    }
}

/// Absence flows outward through return values: the caller of
/// `last_char_of_first_line` matches on what came back.
pub fn err_propagation() {
    let text: &str = "bob\nalice";
    proof {
        reveal_strlit("bob\nalice");
    }
    let c: Option<char> = last_char_of_first_line(text);
    proof {
        reveal_with_fuel(first_newline, 5);
    }
    assert(c == Some('b'));

    let empty: &str = "";
    proof {
        reveal_strlit("");
    }
    let c2: Option<char> = last_char_of_first_line(empty);
    assert(c2 is None);
}

} // verus!
