//! Text primitives used by the wizard: whitespace, trimming, and the
//! `String` edits the text fields perform.

use vstd::prelude::*;

verus! {

/// Unicode `White_Space`, the property that `char::is_whitespace` and
/// `str::trim` go by.
pub open spec fn is_white_space(c: char) -> bool {
    let u = c as u32;
    ||| 0x9 <= u <= 0xd
    ||| u == 0x20
    ||| u == 0x85
    ||| u == 0xa0
    ||| u == 0x1680
    ||| 0x2000 <= u <= 0x200a
    ||| u == 0x2028
    ||| u == 0x2029
    ||| u == 0x202f
    ||| u == 0x205f
    ||| u == 0x3000
}

/// `s` without its leading whitespace.
pub open spec fn trim_start(s: Seq<char>) -> Seq<char>
    decreases s.len(),
{
    if s.len() > 0 && is_white_space(s[0]) {
        trim_start(s.drop_first())
    } else {
        s
    }
}

/// `s` without its trailing whitespace.
pub open spec fn trim_end(s: Seq<char>) -> Seq<char>
    decreases s.len(),
{
    if s.len() > 0 && is_white_space(s.last()) {
        trim_end(s.drop_last())
    } else {
        s
    }
}

/// `s` without leading and trailing whitespace.
pub open spec fn trimmed(s: Seq<char>) -> Seq<char> {
    trim_end(trim_start(s))
}

/// Every character of `s` is whitespace.
pub open spec fn all_white_space(s: Seq<char>) -> bool {
    forall|i: int| 0 <= i < s.len() ==> is_white_space(#[trigger] s[i])
}

/// Neither end of `s` is whitespace.
pub open spec fn is_trimmed(s: Seq<char>) -> bool {
    s.len() > 0 ==> !is_white_space(s[0]) && !is_white_space(s.last())
}

/// `str::trim`: the documentation says it returns the string with leading and
/// trailing whitespace (Unicode `White_Space`) removed; this contract states
/// exactly that, over the characters of the string.
pub assume_specification<'a>[ str::trim ](s: &'a str) -> (res: &'a str)
    ensures
        res@ == trimmed(s@),
;

/// `String::push`: the documentation says it appends the character to the end
/// of the string.
pub assume_specification[ String::push ](s: &mut String, ch: char)
    ensures
        final(s)@ == old(s)@.push(ch),
;

/// `String::pop`: the documentation says it removes the last character and
/// returns it, or returns `None` and leaves the string as it was when it is
/// empty.
pub assume_specification[ String::pop ](s: &mut String) -> (res: Option<char>)
    ensures
        old(s)@.len() == 0 ==> res == None::<char> && final(s)@ == old(s)@,
        old(s)@.len() > 0 ==> res == Some(old(s)@.last()) && final(s)@ == old(s)@.drop_last(),
;

/// What `trim_start` keeps is a suffix of its argument, and it starts with a
/// character that is not whitespace unless it is empty.
pub proof fn lemma_trim_start(s: Seq<char>)
    ensures
        trim_start(s).len() <= s.len(),
        trim_start(s) == s.subrange(s.len() - trim_start(s).len(), s.len() as int),
        trim_start(s).len() > 0 ==> !is_white_space(trim_start(s)[0]),
        trim_start(s).len() == 0 ==> all_white_space(s),
        all_white_space(s) ==> trim_start(s).len() == 0,
    decreases s.len(),
{
    if s.len() > 0 && is_white_space(s[0]) {
        lemma_trim_start(s.drop_first());
        let t = trim_start(s.drop_first());
        assert(s.drop_first().subrange(s.len() - 1 - t.len(), s.len() - 1) =~= s.subrange(
            s.len() - t.len(),
            s.len() as int,
        ));
        if t.len() == 0 {
            assert forall|i: int| 0 <= i < s.len() implies is_white_space(#[trigger] s[i]) by {
                if i > 0 {
                    assert(s[i] == s.drop_first()[i - 1]);
                }
            }
        }
        if all_white_space(s) {
            assert forall|i: int| 0 <= i < s.len() - 1 implies is_white_space(
                #[trigger] s.drop_first()[i],
            ) by {
                assert(s.drop_first()[i] == s[i + 1]);
            }
        }
    } else {
        assert(s.subrange(0, s.len() as int) =~= s);
        if s.len() > 0 {
            assert(!all_white_space(s)) by {
                assert(!is_white_space(s[0]));
            }
        }
    }
}

/// What `trim_end` keeps is a prefix of its argument, and it ends with a
/// character that is not whitespace unless it is empty.
pub proof fn lemma_trim_end(s: Seq<char>)
    ensures
        trim_end(s).len() <= s.len(),
        trim_end(s) == s.subrange(0, trim_end(s).len() as int),
        trim_end(s).len() > 0 ==> !is_white_space(trim_end(s).last()),
        trim_end(s).len() == 0 ==> all_white_space(s),
        all_white_space(s) ==> trim_end(s).len() == 0,
    decreases s.len(),
{
    if s.len() > 0 && is_white_space(s.last()) {
        lemma_trim_end(s.drop_last());
        let t = trim_end(s.drop_last());
        assert(s.drop_last().subrange(0, t.len() as int) =~= s.subrange(0, t.len() as int));
        if t.len() == 0 {
            assert forall|i: int| 0 <= i < s.len() implies is_white_space(#[trigger] s[i]) by {
                if i < s.len() - 1 {
                    assert(s[i] == s.drop_last()[i]);
                }
            }
        }
        if all_white_space(s) {
            assert forall|i: int| 0 <= i < s.len() - 1 implies is_white_space(
                #[trigger] s.drop_last()[i],
            ) by {
                assert(s.drop_last()[i] == s[i]);
            }
        }
    } else {
        assert(s.subrange(0, s.len() as int) =~= s);
        if s.len() > 0 {
            assert(!all_white_space(s)) by {
                assert(!is_white_space(s[s.len() - 1]));
            }
        }
    }
}

/// Trimming leaves nothing exactly when the text is all whitespace, and what
/// it leaves has no whitespace at either end.
pub proof fn lemma_trimmed(s: Seq<char>)
    ensures
        is_trimmed(trimmed(s)),
        trimmed(s).len() == 0 <==> all_white_space(s),
{
    let a = trim_start(s);
    lemma_trim_start(s);
    lemma_trim_end(a);
    let b = trim_end(a);
    if b.len() > 0 {
        assert(b[0] == a[0]);
    }
    if b.len() == 0 && a.len() > 0 {
        // a starts with a non-whitespace character, so trim_end cannot empty it
        assert(is_white_space(a[0]));
        assert(false);
    }
    if b.len() == 0 {
        assert(a.len() == 0);
    }
    if all_white_space(s) {
        assert(a.len() == 0);
        assert(a =~= Seq::<char>::empty());
        assert(trim_end(a) == a);
    }
}

/// Trimming keeps one contiguous run of the text and removes only
/// whitespace around it: tabs, newlines, spaces and the other Unicode spaces,
/// but no letter, digit or punctuation.
pub proof fn lemma_trim_removes_only_white_space(s: Seq<char>)
    ensures
        exists|a: int, b: int|
            0 <= a <= b <= s.len() && trimmed(s) == s.subrange(a, b) && (forall|i: int|
                0 <= i < a ==> is_white_space(#[trigger] s[i])) && (forall|i: int|
                b <= i < s.len() ==> is_white_space(#[trigger] s[i])),
        is_trimmed(trimmed(s)),
        forall|c: char|
            ('a' <= c <= 'z' || 'A' <= c <= 'Z' || '0' <= c <= '9' || c == '.' || c == '/' || c
                == ':' || c == '-' || c == '_') ==> !is_white_space(c),
        is_white_space(' ') && is_white_space('\t') && is_white_space('\n') && is_white_space(
            '\r',
        ),
{
    lemma_trimmed(s);
    lemma_trim_start(s);
    let t = trim_start(s);
    lemma_trim_end(t);
    let a = s.len() - t.len();
    let b = a + trim_end(t).len();
    assert(trimmed(s) =~= s.subrange(a, b));
    assert forall|i: int| 0 <= i < a implies is_white_space(#[trigger] s[i]) by {
        lemma_leading_white_space(s, i);
    }
    assert forall|i: int| b <= i < s.len() implies is_white_space(#[trigger] s[i]) by {
        lemma_trailing_white_space(t, i - a);
        assert(t[i - a] == s[i]);
    }
}

/// Everything `trim_start` drops is whitespace.
proof fn lemma_leading_white_space(s: Seq<char>, i: int)
    requires
        0 <= i < s.len() - trim_start(s).len(),
    ensures
        is_white_space(s[i]),
    decreases s.len(),
{
    if s.len() > 0 && is_white_space(s[0]) {
        if i > 0 {
            lemma_leading_white_space(s.drop_first(), i - 1);
        }
    }
}

/// Everything `trim_end` drops is whitespace.
proof fn lemma_trailing_white_space(s: Seq<char>, i: int)
    requires
        trim_end(s).len() <= i < s.len(),
    ensures
        is_white_space(s[i]),
    decreases s.len(),
{
    if s.len() > 0 && is_white_space(s.last()) {
        if i < s.len() - 1 {
            lemma_trailing_white_space(s.drop_last(), i);
        }
    }
}

} // verus!
