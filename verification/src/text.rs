//! Pure text helpers shared by the backends: argument joining, the macOS
//! login-item name normalization, and membership in a list of names.

use vstd::prelude::*;

verus! {

/// One leading space before each argument: the suffix that a joined argument
/// vector contributes after an executable path.
pub open spec fn space_joined(args: Seq<Seq<char>>) -> Seq<char>
    decreases args.len(),
{
    if args.len() == 0 {
        Seq::empty()
    } else {
        space_joined(args.drop_last()) + " "@ + args.last()
    }
}

/// Appends `" <arg>"` for each argument to `out`.
pub fn push_space_joined(out: &mut String, args: &Vec<String>)
    ensures
        final(out)@ == old(out)@ + space_joined(args.deep_view()),
{
    let n: usize = args.len();
    let mut i: usize = 0;
    while i < n
        invariant
            i <= n,
            n == args@.len(),
            out@ == old(out)@ + space_joined(args.deep_view().take(i as int)),
        decreases n - i,
    {
        proof {
            assert(args.deep_view().take(i + 1).drop_last() =~= args.deep_view().take(i as int));
            assert(args.deep_view().take(i + 1).last() == args.deep_view()[i as int]);
        }
        out.append(" ");
        out.append(args[i].as_str());
        i += 1;
    }
    proof {
        assert(args.deep_view().take(n as int) =~= args.deep_view());
    }
}

/// The part of `s` after its last `/`; all of `s` when it has none.
pub open spec fn after_last_slash(s: Seq<char>) -> Seq<char>
    decreases s.len(),
{
    if s.len() == 0 {
        Seq::empty()
    } else if s.last() == '/' {
        Seq::empty()
    } else {
        after_last_slash(s.drop_last()) + seq![s.last()]
    }
}

/// Whether `s` ends in the four characters `.app`.
pub open spec fn has_app_suffix(s: Seq<char>) -> bool {
    &&& s.len() >= 4
    &&& s[s.len() - 4] == '.'
    &&& s[s.len() - 3] == 'a'
    &&& s[s.len() - 2] == 'p'
    &&& s[s.len() - 1] == 'p'
}

/// The name the login-items database knows a bundle under: the basename of
/// the path, with a trailing `.app` stripped.
pub open spec fn login_item_name(path: Seq<char>) -> Seq<char> {
    let base = after_last_slash(path);
    if has_app_suffix(base) {
        base.subrange(0, base.len() - 4)
    } else {
        base
    }
}

proof fn lemma_after_last_slash(s: Seq<char>, start: int)
    requires
        0 <= start <= s.len(),
        start > 0 ==> s[start - 1] == '/',
        forall|k: int| start <= k < s.len() ==> s[k] != '/',
    ensures
        after_last_slash(s) =~= s.subrange(start, s.len() as int),
    decreases s.len(),
{
    if s.len() == 0 {
    } else if s.last() == '/' {
        assert(start == s.len());
    } else {
        assert(start < s.len());
        lemma_after_last_slash(s.drop_last(), start);
        assert(after_last_slash(s) =~= s.subrange(start, s.len() as int));
    }
}

/// Computes [`login_item_name`] of a path.
pub fn login_item_name_of(path: &str) -> (r: String)
    ensures
        r@ == login_item_name(path@),
{
    let n: usize = path.unicode_len();
    let mut start: usize = 0;
    let mut i: usize = 0;
    while i < n
        invariant
            i <= n,
            start <= i,
            n == path@.len(),
            start > 0 ==> path@[start - 1] == '/',
            forall|k: int| start <= k < i ==> path@[k] != '/',
        decreases n - i,
    {
        if path.get_char(i) == '/' {
            start = i + 1;
        }
        i += 1;
    }
    proof {
        lemma_after_last_slash(path@, start as int);
    }
    let base_len: usize = n - start;
    if base_len >= 4 && path.get_char(n - 4) == '.' && path.get_char(n - 3) == 'a'
        && path.get_char(n - 2) == 'p' && path.get_char(n - 1) == 'p' {
        let stripped = path.substring_char(start, n - 4);
        proof {
            assert(after_last_slash(path@).subrange(0, after_last_slash(path@).len() - 4)
                =~= path@.subrange(start as int, n - 4));
        }
        stripped.to_owned()
    } else {
        let base = path.substring_char(start, n);
        base.to_owned()
    }
}

/// Whether some entry of `items` reads exactly `name`.
pub open spec fn seq_contains_name(items: Seq<String>, name: Seq<char>) -> bool {
    exists|i: int| 0 <= i < items.len() && items[i]@ == name
}

/// Linear search for `name` among `items`.
pub fn contains_string(items: &Vec<String>, name: &String) -> (r: bool)
    ensures
        r == seq_contains_name(items@, name@),
{
    let n: usize = items.len();
    let mut i: usize = 0;
    while i < n
        invariant
            i <= n,
            n == items@.len(),
            forall|k: int| 0 <= k < i ==> items@[k]@ != name@,
        decreases n - i,
    {
        if items[i] == *name {
            return true;
        }
        i += 1;
    }
    false
}

/// `items` with every entry that reads `name` removed, order kept.
pub open spec fn seq_without_name(items: Seq<String>, name: Seq<char>) -> Seq<String>
    decreases items.len(),
{
    if items.len() == 0 {
        items
    } else if items.last()@ == name {
        seq_without_name(items.drop_last(), name)
    } else {
        seq_without_name(items.drop_last(), name).push(items.last())
    }
}

/// No entry of the filtered list reads `name`.
pub proof fn lemma_without_name_not_contains(items: Seq<String>, name: Seq<char>)
    ensures
        !seq_contains_name(seq_without_name(items, name), name),
    decreases items.len(),
{
    if items.len() > 0 {
        lemma_without_name_not_contains(items.drop_last(), name);
    }
}

/// Filtering out `name` keeps every other name's membership unchanged.
pub proof fn lemma_without_name_keeps_others(items: Seq<String>, name: Seq<char>, other: Seq<char>)
    requires
        other != name,
    ensures
        seq_contains_name(seq_without_name(items, name), other) == seq_contains_name(items, other),
    decreases items.len(),
{
    if items.len() > 0 {
        let d = items.drop_last();
        lemma_without_name_keeps_others(d, name, other);
        let w = seq_without_name(items, name);
        let wd = seq_without_name(d, name);
        if seq_contains_name(items, other) {
            let i = choose|i: int| 0 <= i < items.len() && items[i]@ == other;
            if i < items.len() - 1 {
                assert(d[i]@ == other);
                let j = choose|j: int| 0 <= j < wd.len() && wd[j]@ == other;
                assert(w[j]@ == other);
            } else {
                assert(items.last()@ == other);
                assert(w[w.len() - 1]@ == other);
            }
            assert(seq_contains_name(w, other));
        }
        if seq_contains_name(w, other) {
            let j = choose|j: int| 0 <= j < w.len() && w[j]@ == other;
            if items.last()@ != name && j == w.len() - 1 {
                assert(items[items.len() - 1]@ == other);
            } else {
                assert(wd[j]@ == other);
                let i = choose|i: int| 0 <= i < d.len() && d[i]@ == other;
                assert(items[i]@ == other);
            }
            assert(seq_contains_name(items, other));
        }
    }
}

/// Removes every entry of `items` that reads `name`.
pub fn remove_string(items: &mut Vec<String>, name: &String)
    ensures
        final(items)@ == seq_without_name(old(items)@, name@),
{
    let n: usize = items.len();
    let mut kept: Vec<String> = Vec::new();
    let mut i: usize = 0;
    while i < n
        invariant
            i <= n,
            *items == *old(items),
            n == items@.len(),
            kept@ == seq_without_name(items@.take(i as int), name@),
        decreases n - i,
    {
        proof {
            assert(items@.take(i + 1).drop_last() =~= items@.take(i as int));
            assert(items@.take(i + 1).last() == items@[i as int]);
        }
        if !(items[i] == *name) {
            let entry = items[i].clone();
            kept.push(entry);
        }
        i += 1;
    }
    proof {
        assert(items@.take(n as int) =~= items@);
    }
    *items = kept;
}

} // verus!
