//! Comparing and rewriting pieces of text.

use vstd::prelude::*;
use vstd::string::StringSliceAdditionalSpecFns;
use vstd::utf8::encode_utf8_decode_utf8;

verus! {

/// Whether `part` stands in `whole` from position `at` on.
pub open spec fn occurs_at(whole: Seq<char>, part: Seq<char>, at: int) -> bool {
    0 <= at && at + part.len() <= whole.len() && whole.subrange(at, at + part.len()) == part
}

/// Whether `part` stands somewhere in `whole`.
pub open spec fn occurs_in(whole: Seq<char>, part: Seq<char>) -> bool {
    exists|at: int| occurs_at(whole, part, at)
}

/// `text` with every occurrence of `from` replaced by `to`. Occurrences are
/// found from the left and do not overlap. `from` is not empty.
pub open spec fn replaced(text: Seq<char>, from: Seq<char>, to: Seq<char>) -> Seq<char>
    decreases text.len(),
{
    if from.len() == 0 || text.len() < from.len() {
        text
    } else if text.subrange(0, from.len() as int) == from {
        to + replaced(text.subrange(from.len() as int, text.len() as int), from, to)
    } else {
        seq![text[0]] + replaced(text.subrange(1, text.len() as int), from, to)
    }
}

/// The characters of a text, one by one.
fn to_chars(text: &str) -> (chars: Vec<char>)
    ensures
        chars@ == text@,
{
    let mut chars: Vec<char> = Vec::new();
    for c in it: text.chars()
        invariant
            it.seq() == text@,
            chars@ == it.seq().take(it.index()),
    {
        chars.push(c);
        assert(it.seq().take(it.index() + 1) =~= it.seq().take(it.index()).push(c));
    }
    assert(text@.take(text@.len() as int) =~= text@);
    chars
}

/// Whether `part` stands in `whole` from position `at` on, where `at` is a
/// position at which it would fit.
fn matches_at(whole: &Vec<char>, part: &Vec<char>, at: usize) -> (found: bool)
    requires
        at + part@.len() <= whole@.len(),
    ensures
        found == occurs_at(whole@, part@, at as int),
{
    let whole_len = whole.len();
    let mut i: usize = 0;
    while i < part.len()
        invariant
            i <= part@.len(),
            at + part@.len() <= whole@.len(),
            whole_len == whole@.len(),
            forall|j: int| 0 <= j < i ==> whole@[at + j] == part@[j],
        decreases part@.len() - i,
    {
        if whole[at + i] != part[i] {
            assert(whole@.subrange(at as int, at + part@.len())[i as int] != part@[i as int]);
            return false;
        }
        i = i + 1;
    }
    assert(whole@.subrange(at as int, at + part@.len()) =~= part@);
    true
}

/// Whether two pieces of text are the same. The two are compared byte by
/// byte: text is the same exactly where its UTF-8 encoding is.
pub fn same_text(a: &str, b: &str) -> (same: bool)
    ensures
        same == (a@ == b@),
{
    let a_bytes = a.as_bytes();
    let b_bytes = b.as_bytes();
    proof {
        encode_utf8_decode_utf8(a@);
        encode_utf8_decode_utf8(b@);
    }
    if a_bytes.len() != b_bytes.len() {
        return false;
    }
    let mut i: usize = 0;
    while i < a_bytes.len()
        invariant
            i <= a_bytes.len(),
            a_bytes.len() == b_bytes.len(),
            a_bytes@ == a.spec_bytes(),
            b_bytes@ == b.spec_bytes(),
            forall|j: int| 0 <= j < i ==> a_bytes@[j] == b_bytes@[j],
        decreases a_bytes.len() - i,
    {
        if a_bytes[i] != b_bytes[i] {
            return false;
        }
        i = i + 1;
    }
    assert(a_bytes@ =~= b_bytes@);
    true
}

/// Whether `whole` begins with `part`.
pub fn begins_with(whole: &str, part: &str) -> (found: bool)
    ensures
        found == part@.is_prefix_of(whole@),
{
    let whole_chars = to_chars(whole);
    let part_chars = to_chars(part);
    if part_chars.len() > whole_chars.len() {
        return false;
    }
    matches_at(&whole_chars, &part_chars, 0)
}

/// Whether `part` stands somewhere in `whole`.
pub fn contains_text(whole: &str, part: &str) -> (found: bool)
    ensures
        found == occurs_in(whole@, part@),
{
    let whole_chars = to_chars(whole);
    let part_chars = to_chars(part);
    if part_chars.len() > whole_chars.len() {
        return false;
    }
    let last = whole_chars.len() - part_chars.len();
    let mut at: usize = 0;
    loop
        invariant_except_break
            at <= last,
            forall|k: int| 0 <= k < at ==> !occurs_at(whole@, part@, k),
        invariant
            last + part_chars@.len() == whole_chars@.len(),
            whole_chars@ == whole@,
            part_chars@ == part@,
        ensures
            forall|k: int| 0 <= k <= last ==> !occurs_at(whole@, part@, k),
        decreases last - at,
    {
        if matches_at(&whole_chars, &part_chars, at) {
            return true;
        }
        if at == last {
            break ;
        }
        at = at + 1;
    }
    assert forall|k: int| !occurs_at(whole@, part@, k) by {
        if occurs_at(whole@, part@, k) {
            assert(0 <= k <= last);
        }
    }
    false
}

/// One step of [`replaced`] on a text that is not empty: where the text
/// begins with `from`, `to` takes its place; where it does not, the first
/// character is kept.
proof fn lemma_replaced_step(text: Seq<char>, from: Seq<char>, to: Seq<char>)
    requires
        from.len() > 0,
        text.len() > 0,
    ensures
        text.len() >= from.len() && text.subrange(0, from.len() as int) == from ==> replaced(
            text,
            from,
            to,
        ) == to + replaced(text.subrange(from.len() as int, text.len() as int), from, to),
        !(text.len() >= from.len() && text.subrange(0, from.len() as int) == from) ==> replaced(
            text,
            from,
            to,
        ) == seq![text[0]] + replaced(text.subrange(1, text.len() as int), from, to),
{
    if text.len() < from.len() {
        let tail = text.subrange(1, text.len() as int);
        assert(replaced(tail, from, to) == tail);
        assert(text =~= seq![text[0]] + tail);
    }
}

/// `text` with every occurrence of `from` replaced by `to`.
pub fn replace_text(text: &str, from: &str, to: &str) -> (out: String)
    requires
        from@.len() > 0,
    ensures
        out@ == replaced(text@, from@, to@),
{
    let chars = to_chars(text);
    let pattern = to_chars(from);
    let len = chars.len();
    let mut out = String::new();
    // The characters from `kept` up to `at` hold no occurrence and are still
    // to be copied.
    let mut kept: usize = 0;
    let mut at: usize = 0;
    assert(text@.subrange(0, 0) =~= Seq::<char>::empty());
    assert(text@.subrange(0, len as int) =~= text@);
    assert(Seq::<char>::empty() + Seq::<char>::empty() + replaced(text@, from@, to@)
        =~= replaced(text@, from@, to@));
    while at < len
        invariant
            kept <= at <= len,
            len == text@.len(),
            chars@ == text@,
            pattern@ == from@,
            from@.len() > 0,
            out@ + text@.subrange(kept as int, at as int) + replaced(
                text@.subrange(at as int, len as int),
                from@,
                to@,
            ) == replaced(text@, from@, to@),
        decreases len - at,
    {
        let ghost rest = text@.subrange(at as int, len as int);
        let ghost before = out@;
        let ghost run = text@.subrange(kept as int, at as int);
        proof {
            lemma_replaced_step(rest, from@, to@);
        }
        if pattern.len() <= len - at && matches_at(&chars, &pattern, at) {
            out.append(text.substring_char(kept, at));
            out.append(to);
            proof {
                assert(rest.subrange(0, from@.len() as int) =~= text@.subrange(
                    at as int,
                    at + from@.len(),
                ));
                assert(rest.subrange(from@.len() as int, rest.len() as int) =~= text@.subrange(
                    at + from@.len(),
                    len as int,
                ));
                let tail = replaced(text@.subrange(at + from@.len(), len as int), from@, to@);
                let empty = text@.subrange(at + from@.len(), at + from@.len());
                assert(empty =~= Seq::<char>::empty());
                assert(((before + run) + to@) + empty + tail =~= before + run + (to@ + tail));
            }
            at = at + pattern.len();
            kept = at;
        } else {
            proof {
                if rest.len() >= from@.len() {
                    assert(rest.subrange(0, from@.len() as int) =~= text@.subrange(
                        at as int,
                        at + from@.len(),
                    ));
                }
                assert(rest.subrange(1, rest.len() as int) =~= text@.subrange(
                    at + 1,
                    len as int,
                ));
                let tail = replaced(text@.subrange(at + 1, len as int), from@, to@);
                assert(text@.subrange(kept as int, at + 1) =~= run + seq![rest[0]]);
                assert(before + (run + seq![rest[0]]) + tail =~= before + run + (seq![rest[0]]
                    + tail));
            }
            at = at + 1;
        }
    }
    out.append(text.substring_char(kept, len));
    proof {
        assert(text@.subrange(len as int, len as int) =~= Seq::<char>::empty());
        assert(out@ + Seq::<char>::empty() =~= out@);
    }
    out
}

} // verus!
