//! Text as a sequence of characters: the few operations that field names need.

use vstd::prelude::*;
use vstd::string::*;

verus! {

/// The number of characters at the start of `text` that are not a dot: the
/// place of its first dot, or its length where it has none.
pub open spec fn dotless_len(text: Seq<char>) -> nat
    decreases text.len(),
{
    if text.len() == 0 || text[0] == '.' {
        0
    } else {
        1 + dotless_len(text.drop_first())
    }
}

/// What `dotless_len` counts: no dot comes before that place, and the place
/// either holds a dot or is the end of the text.
pub proof fn lemma_dotless_len(text: Seq<char>)
    ensures
        dotless_len(text) <= text.len(),
        forall|i: int| 0 <= i < dotless_len(text) ==> text[i] != '.',
        dotless_len(text) < text.len() ==> text[dotless_len(text) as int] == '.',
    decreases text.len(),
{
    if text.len() != 0 && text[0] != '.' {
        let rest = text.drop_first();
        lemma_dotless_len(rest);
        assert forall|i: int| 0 <= i < dotless_len(text) implies text[i] != '.' by {
            if i > 0 {
                assert(text[i] == rest[i - 1]);
            }
        }
    }
}

/// A place before which no dot comes, and which holds a dot or ends the text, is
/// the place that `dotless_len` gives.
pub proof fn lemma_dotless_len_is(text: Seq<char>, stem: nat)
    requires
        stem <= text.len(),
        forall|i: int| 0 <= i < stem ==> text[i] != '.',
        stem < text.len() ==> text[stem as int] == '.',
    ensures
        dotless_len(text) == stem,
    decreases stem,
{
    if stem > 0 {
        let rest = text.drop_first();
        assert(text[0] != '.');
        assert forall|i: int| 0 <= i < stem - 1 implies rest[i] != '.' by {
            assert(rest[i] == text[i + 1]);
        }
        lemma_dotless_len_is(rest, (stem - 1) as nat);
    }
}

/// The characters of `text`, in order.
pub fn chars_of(text: &str) -> (chars: Vec<char>)
    ensures
        chars@ == text@,
{
    let mut chars: Vec<char> = Vec::new();
    for c in it: text.chars()
        invariant
            chars@ == it.seq().take(it.index() as int),
            it.seq() == text@,
    {
        chars.push(c);
    }
    proof {
        assert(chars@ =~= text@);
    }
    chars
}

/// Whether `text` begins with `prefix`.
pub fn has_prefix(text: &Vec<char>, prefix: &Vec<char>) -> (yes: bool)
    ensures
        yes == prefix@.is_prefix_of(text@),
{
    if prefix.len() > text.len() {
        return false;
    }
    let mut i: usize = 0;
    while i < prefix.len()
        invariant
            i <= prefix.len() <= text.len(),
            prefix@.take(i as int) =~= text@.subrange(0, i as int),
        decreases prefix.len() - i,
    {
        if prefix[i] != text[i] {
            proof {
                assert(text@.subrange(0, prefix@.len() as int)[i as int] == text@[i as int]);
            }
            return false;
        }
        proof {
            assert(prefix@.take(i + 1) =~= prefix@.take(i as int).push(prefix@[i as int]));
            assert(text@.subrange(0, i + 1) =~= text@.subrange(0, i as int).push(text@[i as int]));
        }
        i += 1;
    }
    proof {
        assert(prefix@.take(i as int) =~= prefix@);
    }
    true
}

/// Whether two texts hold the same characters.
pub fn same_text(a: &str, b: &str) -> (yes: bool)
    ensures
        yes == (a@ == b@),
{
    let left = chars_of(a);
    let right = chars_of(b);
    let same = left.len() == right.len() && has_prefix(&left, &right);
    proof {
        if same {
            assert(right@ =~= left@.subrange(0, right@.len() as int));
            assert(left@.subrange(0, left@.len() as int) =~= left@);
        }
    }
    same
}

/// The number of characters of `text` from place `from` up to its first dot at
/// or after that place, or up to its end where no dot follows.
pub fn stem_len(text: &Vec<char>, from: usize) -> (stem: usize)
    requires
        from <= text.len(),
    ensures
        stem == dotless_len(text@.skip(from as int)),
        from + stem <= text.len(),
{
    let ghost rest = text@.skip(from as int);
    let mut stem: usize = 0;
    while from + stem < text.len() && text[from + stem] != '.'
        invariant
            from + stem <= text.len(),
            rest == text@.skip(from as int),
            forall|i: int| 0 <= i < stem ==> rest[i] != '.',
        decreases text.len() - from - stem,
    {
        proof {
            assert(rest[stem as int] == text@[from + stem]);
        }
        stem += 1;
    }
    proof {
        if from + stem < text.len() {
            assert(rest[stem as int] == text@[from + stem]);
        }
        lemma_dotless_len_is(rest, stem as nat);
    }
    stem
}

} // verus!
