//! Pieces of listfile text shared by the manifests.
use vstd::prelude::*;
use vstd::string::StringExecFns;
use crate::tree::strs;

verus! {

/// One indented line per item: `    item\n`.
pub open spec fn lines(items: Seq<Seq<char>>) -> Seq<char>
    decreases items.len(),
{
    if items.len() == 0 {
        Seq::empty()
    } else {
        lines(items.drop_last()) + "    "@ + items.last() + "\n"@
    }
}

/// The items joined with single spaces.
pub open spec fn spaced(items: Seq<Seq<char>>) -> Seq<char>
    decreases items.len(),
{
    if items.len() == 0 {
        Seq::empty()
    } else if items.len() == 1 {
        items[0]
    } else {
        spaced(items.drop_last()) + " "@ + items.last()
    }
}

/// The text ends in a newline with no blank line before it.
pub open spec fn ends_in_one_newline(t: Seq<char>) -> bool {
    &&& t.len() >= 2
    &&& t[t.len() - 1] == '\n'
    &&& t[t.len() - 2] != '\n'
}

/// The text ends with a closing parenthesis and a newline.
pub open spec fn ends_with_close(t: Seq<char>) -> bool {
    &&& t.len() >= 2
    &&& t[t.len() - 1] == '\n'
    &&& t[t.len() - 2] == ')'
}

pub proof fn lemma_close_suffix(a: Seq<char>, b: Seq<char>)
    requires
        ends_with_close(b),
    ensures
        ends_with_close(a + b),
        ends_in_one_newline(a + b),
{
    let c = a + b;
    assert(c[c.len() - 1] == b[b.len() - 1]);
    assert(c[c.len() - 2] == b[b.len() - 2]);
}

pub proof fn lemma_close_line()
    ensures
        ends_with_close(")\n"@),
{
    reveal_strlit(")\n");
}

/// No name occurs twice.
pub open spec fn distinct(s: Seq<Seq<char>>) -> bool {
    forall|i: int, j: int| 0 <= i < j < s.len() ==> s[i] != s[j]
}

/// `n` occurs at least twice.
pub open spec fn duplicated(s: Seq<Seq<char>>, n: Seq<char>) -> bool {
    exists|i: int, j: int| 0 <= i < j < s.len() && s[i] == n && s[j] == n
}

/// A name that occurs twice, if any does.
pub fn find_duplicate(names: &Vec<String>) -> (r: Option<String>)
    ensures
        r is None <==> distinct(strs(names@)),
        r matches Some(n) ==> duplicated(strs(names@), n@),
{
    let ghost s = strs(names@);
    let mut j: usize = 0;
    while j < names.len()
        invariant
            j <= names.len(),
            s == strs(names@),
            forall|a: int, b: int| 0 <= a < b < j ==> s[a] != s[b],
        decreases names.len() - j,
    {
        let mut i: usize = 0;
        while i < j
            invariant
                i <= j < names.len(),
                s == strs(names@),
                forall|a: int, b: int| 0 <= a < b < j ==> s[a] != s[b],
                forall|a: int| 0 <= a < i ==> s[a] != s[j as int],
            decreases j - i,
        {
            if names[i] == names[j] {
                let r = names[j].clone();
                assert(s[i as int] == r@ && s[j as int] == r@);
                return Some(r);
            }
            i += 1;
        }
        j += 1;
    }
    None
}

/// Appends one indented line per item.
pub fn write_lines(sb: &mut String, items: &Vec<String>)
    ensures
        final(sb)@ == old(sb)@ + lines(strs(items@)),
{
    let ghost start = sb@;
    let mut i: usize = 0;
    while i < items.len()
        invariant
            i <= items.len(),
            sb@ == start + lines(strs(items@.take(i as int))),
        decreases items.len() - i,
    {
        let ghost prev = sb@;
        sb.append("    ");
        sb.append(items[i].as_str());
        sb.append("\n");
        let ghost next = strs(items@.take(i + 1));
        assert(next.drop_last() =~= strs(items@.take(i as int)));
        assert(sb@ =~= start + lines(next));
        i += 1;
    }
    assert(items@.take(i as int) =~= items@);
}

/// Appends the items joined with single spaces.
pub fn write_spaced(sb: &mut String, items: &Vec<String>)
    ensures
        final(sb)@ == old(sb)@ + spaced(strs(items@)),
{
    let ghost start = sb@;
    let mut i: usize = 0;
    assert(spaced(strs(items@.take(0))) =~= Seq::<char>::empty());
    while i < items.len()
        invariant
            i <= items.len(),
            sb@ == start + spaced(strs(items@.take(i as int))),
        decreases items.len() - i,
    {
        if i > 0 {
            sb.append(" ");
        }
        sb.append(items[i].as_str());
        let ghost next = strs(items@.take(i + 1));
        assert(next.drop_last() =~= strs(items@.take(i as int)));
        assert(sb@ =~= start + spaced(next));
        i += 1;
    }
    assert(items@.take(i as int) =~= items@);
}

} // verus!
