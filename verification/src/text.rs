//! Text helpers shared by the parsers of this crate.
//!
//! Strings are modelled by their view, a `Seq<char>`. The functions below scan
//! a string once into a `Vec<char>` and then work with indices into it.

use vstd::prelude::*;

verus! {

/// `str`'s own equality, `<str as PartialEq>::eq`: two string slices are equal
/// exactly when they hold the same characters in the same order.
pub assume_specification[ <str as PartialEq>::eq ](a: &str, b: &str) -> (r: bool)
    ensures
        r == (a@ == b@),
;

/// Whether two strings hold the same text.
pub fn same_text(a: &str, b: &str) -> (r: bool)
    ensures
        r == (a@ == b@),
{
    *a == *b
}

/// The characters of `s`, in order.
pub fn chars_of(s: &str) -> (v: Vec<char>)
    ensures
        v@ == s@,
{
    let mut v: Vec<char> = Vec::new();
    for c in it: s.chars()
        invariant
            it.seq() == s@,
            v@ == s@.take(it.index() as int),
    {
        v.push(c);
    }
    v
}

/// A class of characters that a scan can run over.
#[derive(Clone, Copy, Debug, PartialEq, Eq, Structural)]
pub enum CharClass {
    /// Unicode white space.
    Space,
    /// Anything but white space.
    Word,
    /// Anything but a colon.
    BeforeColon,
}

/// Unicode's `White_Space` property: the characters that separate words.
pub open spec fn is_space(c: char) -> bool {
    let n = c as u32;
    ||| 0x09 <= n <= 0x0D
    ||| n == 0x20
    ||| n == 0x85
    ||| n == 0xA0
    ||| n == 0x1680
    ||| 0x2000 <= n <= 0x200A
    ||| n == 0x2028
    ||| n == 0x2029
    ||| n == 0x202F
    ||| n == 0x205F
    ||| n == 0x3000
}

impl CharClass {
    /// Whether `c` belongs to the class.
    pub open spec fn holds(self, c: char) -> bool {
        match self {
            CharClass::Space => is_space(c),
            CharClass::Word => !is_space(c),
            CharClass::BeforeColon => c != ':',
        }
    }

    /// Whether `c` belongs to the class.
    pub fn contains(self, c: char) -> (r: bool)
        ensures
            r == self.holds(c),
    {
        match self {
            CharClass::Space => is_space_char(c),
            CharClass::Word => !is_space_char(c),
            CharClass::BeforeColon => c != ':',
        }
    }
}

/// Whether `c` is white space.
pub fn is_space_char(c: char) -> (r: bool)
    ensures
        r == is_space(c),
{
    let n: u32 = c as u32;
    (0x09 <= n && n <= 0x0D) || n == 0x20 || n == 0x85 || n == 0xA0 || n == 0x1680 || (0x2000 <= n
        && n <= 0x200A) || n == 0x2028 || n == 0x2029 || n == 0x202F || n == 0x205F || n
        == 0x3000
}

/// How many characters at the start of `s` belong to `class`, counted up to the
/// first one that does not.
pub open spec fn run_len(s: Seq<char>, class: CharClass) -> nat
    decreases s.len(),
{
    if s.len() > 0 && class.holds(s[0]) {
        1 + run_len(s.drop_first(), class)
    } else {
        0
    }
}

/// Every character of a run belongs to the class, and the run ends at the end
/// of the text or in front of a character that does not belong.
pub proof fn lemma_run_len_meaning(s: Seq<char>, class: CharClass)
    ensures
        run_len(s, class) <= s.len(),
        forall|i: int| 0 <= i < run_len(s, class) ==> class.holds(#[trigger] s[i]),
        run_len(s, class) < s.len() ==> !class.holds(s[run_len(s, class) as int]),
    decreases s.len(),
{
    if s.len() > 0 && class.holds(s[0]) {
        let rest = s.drop_first();
        lemma_run_len_meaning(rest, class);
        assert forall|i: int| 0 <= i < run_len(s, class) implies class.holds(#[trigger] s[i]) by {
            if i > 0 {
                assert(s[i] == rest[i - 1]);
            }
        }
        if run_len(s, class) < s.len() {
            assert(s[run_len(s, class) as int] == rest[run_len(rest, class) as int]);
        }
    }
}

/// A run is as long as `n` where the first `n` characters belong to the class
/// and the text ends there or goes on with a character that does not belong.
pub proof fn lemma_run_len_is(s: Seq<char>, class: CharClass, n: int)
    requires
        0 <= n <= s.len(),
        forall|i: int| 0 <= i < n ==> class.holds(#[trigger] s[i]),
        n < s.len() ==> !class.holds(s[n]),
    ensures
        run_len(s, class) == n,
    decreases n,
{
    if n > 0 {
        let rest = s.drop_first();
        assert(class.holds(s[0]));
        assert forall|i: int| 0 <= i < n - 1 implies class.holds(#[trigger] rest[i]) by {
            assert(rest[i] == s[i + 1]);
        }
        if n - 1 < rest.len() {
            assert(rest[n - 1] == s[n]);
        }
        lemma_run_len_is(rest, class, n - 1);
    }
}

/// The index at which the run of `class` that starts at `from` ends.
pub fn run_end(chars: &Vec<char>, from: usize, class: CharClass) -> (end: usize)
    requires
        from <= chars.len(),
    ensures
        end == from + run_len(chars@.skip(from as int), class),
        from <= end <= chars.len(),
        forall|i: int| from <= i < end ==> class.holds(#[trigger] chars@[i]),
        end < chars.len() ==> !class.holds(chars@[end as int]),
{
    let mut end: usize = from;
    proof {
        let tail = chars@.skip(from as int);
        lemma_run_len_meaning(tail, class);
        assert forall|i: int| from <= i < from + run_len(tail, class) implies class.holds(
            #[trigger] chars@[i],
        ) by {
            assert(tail[i - from] == chars@[i]);
        }
        if from + run_len(tail, class) < chars.len() {
            assert(tail[run_len(tail, class) as int] == chars@[from + run_len(tail, class)]);
        }
    }
    while end < chars.len() && class.contains(chars[end])
        invariant
            from <= end <= chars.len(),
            from + run_len(chars@.skip(from as int), class) == end + run_len(
                chars@.skip(end as int),
                class,
            ),
        decreases chars.len() - end,
    {
        proof {
            let here = chars@.skip(end as int);
            assert(here[0] == chars@[end as int]);
            assert(here.drop_first() =~= chars@.skip(end as int + 1));
        }
        end = end + 1;
    }
    proof {
        let here = chars@.skip(end as int);
        if end < chars.len() {
            assert(here[0] == chars@[end as int]);
        }
    }
    end
}

/// The first word of `s`: what stands between the leading white space and the
/// next white space. Empty when `s` holds no word.
pub open spec fn first_word(s: Seq<char>) -> Seq<char> {
    let body = s.skip(run_len(s, CharClass::Space) as int);
    body.take(run_len(body, CharClass::Word) as int)
}

/// What follows the first word of `s`.
pub open spec fn after_first_word(s: Seq<char>) -> Seq<char> {
    let body = s.skip(run_len(s, CharClass::Space) as int);
    body.skip(run_len(body, CharClass::Word) as int)
}

/// What stands in `s` before its first colon: all of `s` when it has none.
pub open spec fn before_colon(s: Seq<char>) -> Seq<char> {
    s.take(run_len(s, CharClass::BeforeColon) as int)
}

/// What stands in `s` behind its first colon: nothing when it has none.
pub open spec fn after_colon(s: Seq<char>) -> Seq<char> {
    let n = run_len(s, CharClass::BeforeColon);
    if n < s.len() {
        s.skip(n as int + 1)
    } else {
        Seq::empty()
    }
}

} // verus!
