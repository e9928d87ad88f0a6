//! Verified text utilities: string equality, joining and splitting on
//! newlines, and single-variable template substitution.

use vstd::prelude::*;

verus! {

use vstd::string::StrSliceExecFns;

/// Relies on `String::push`: appends the given character to the end of the
/// string.
#[verifier::external_body]
pub(crate) fn push_char(s: &mut String, c: char)
    ensures
        final(s)@ == old(s)@.push(c),
{
    s.push(c);
}

/// Character-for-character string equality.
pub fn str_eq(a: &str, b: &str) -> (r: bool)
    ensures
        r == (a@ == b@),
{
    let an = a.unicode_len();
    let bn = b.unicode_len();
    if an != bn {
        proof {
            assert(a@ != b@);
        }
        return false;
    }
    let mut i: usize = 0;
    while i < an
        invariant
            i <= an,
            an == a@.len(),
            an == b@.len(),
            forall|j: int| 0 <= j < i ==> a@[j] == b@[j],
        decreases an - i,
    {
        if a.get_char(i) != b.get_char(i) {
            return false;
        }
        i = i + 1;
    }
    proof {
        assert(a@ =~= b@);
    }
    true
}

/// The items joined with a single newline between neighbours.
pub open spec fn join_lines(items: Seq<Seq<char>>) -> Seq<char>
    decreases items.len(),
{
    if items.len() == 0 {
        Seq::empty()
    } else if items.len() == 1 {
        items[0]
    } else {
        items[0] + seq!['\n'] + join_lines(items.drop_first())
    }
}

/// The text split at every newline; always one more part than newlines.
pub open spec fn split_lines(s: Seq<char>) -> Seq<Seq<char>>
    decreases s.len(),
{
    if s.len() == 0 {
        seq![Seq::<char>::empty()]
    } else if s[0] == '\n' {
        seq![Seq::<char>::empty()] + split_lines(s.drop_first())
    } else {
        let rest = split_lines(s.drop_first());
        seq![seq![s[0]] + rest[0]] + rest.drop_first()
    }
}

/// Whether the text holds no newline.
pub open spec fn no_newline(s: Seq<char>) -> bool {
    forall|j: int| 0 <= j < s.len() ==> s[j] != '\n'
}

proof fn lemma_split_lines_nonempty(s: Seq<char>)
    ensures
        split_lines(s).len() >= 1,
    decreases s.len(),
{
    if s.len() != 0 {
        lemma_split_lines_nonempty(s.drop_first());
    }
}

/// Splitting a newline-free text gives that text back as the one part.
proof fn lemma_split_lines_clean(s: Seq<char>)
    requires
        no_newline(s),
    ensures
        split_lines(s) =~~= seq![s],
    decreases s.len(),
{
    if s.len() == 0 {
        assert(split_lines(s) =~~= seq![s]);
    } else {
        assert(s.drop_first().len() == s.len() - 1);
        assert(no_newline(s.drop_first()));
        lemma_split_lines_clean(s.drop_first());
        assert(split_lines(s)[0] =~= seq![s[0]] + s.drop_first());
        assert(seq![s[0]] + s.drop_first() =~= s);
        assert(split_lines(s) =~~= seq![s]);
    }
}

/// Splitting `head ++ "\n" ++ tail` where `head` is newline-free peels off
/// `head` as the first part.
proof fn lemma_split_lines_step(head: Seq<char>, tail: Seq<char>)
    requires
        no_newline(head),
    ensures
        split_lines(head + seq!['\n'] + tail) =~~= seq![head] + split_lines(tail),
    decreases head.len(),
{
    let s = head + seq!['\n'] + tail;
    if head.len() == 0 {
        assert(s[0] == '\n');
        assert(s.drop_first() =~= tail);
        assert(split_lines(s) =~= seq![Seq::<char>::empty()] + split_lines(tail));
        assert(head =~= Seq::<char>::empty());
        assert(split_lines(s) =~~= seq![head] + split_lines(tail));
    } else {
        assert(s[0] == head[0]);
        assert(s[0] != '\n');
        assert(no_newline(head.drop_first()));
        lemma_split_lines_step(head.drop_first(), tail);
        let s2 = head.drop_first() + seq!['\n'] + tail;
        assert(s.drop_first() =~= s2);
        lemma_split_lines_nonempty(tail);
        let rest = split_lines(s2);
        assert(rest =~~= seq![head.drop_first()] + split_lines(tail));
        assert(rest[0] == head.drop_first());
        assert(seq![s[0]] + rest[0] =~= head);
        assert(rest.drop_first() =~= split_lines(tail));
        assert(split_lines(s) =~~= seq![head] + split_lines(tail));
    }
}

/// Round trip: joining newline-free items with newlines and splitting again
/// returns exactly the original items, in order.
pub proof fn lemma_join_split_round_trip(items: Seq<Seq<char>>)
    requires
        items.len() >= 1,
        forall|i: int| 0 <= i < items.len() ==> no_newline(#[trigger] items[i]),
    ensures
        split_lines(join_lines(items)) =~~= items,
    decreases items.len(),
{
    if items.len() == 1 {
        lemma_split_lines_clean(items[0]);
        assert(join_lines(items) == items[0]);
        assert(split_lines(join_lines(items)) =~~= seq![items[0]]);
        assert(seq![items[0]] =~~= items);
    } else {
        let rest = items.drop_first();
        assert(forall|i: int| 0 <= i < rest.len() ==> no_newline(#[trigger] rest[i]));
        lemma_join_split_round_trip(rest);
        lemma_split_lines_step(items[0], join_lines(rest));
        assert(join_lines(items) == items[0] + seq!['\n'] + join_lines(rest));
        assert(split_lines(join_lines(items)) =~~= seq![items[0]] + rest);
        assert(seq![items[0]] + rest =~~= items);
    }
}

/// Joins the given items with a single newline between neighbours.
pub fn join_lines_exec(items: &Vec<&str>) -> (r: String)
    ensures
        r@ == join_lines(items.deep_view()),
{
    let mut r = String::new();
    let n = items.len();
    if n == 0 {
        return r;
    }
    let mut i: usize = 0;
    while i < n
        invariant
            i <= n,
            n == items@.len(),
            i < n ==> r@ =~= join_prefix(items.deep_view(), i as int),
            i == n ==> r@ =~= join_lines(items.deep_view()),
        decreases n - i,
    {
        r.append(items[i]);
        proof {
            lemma_join_prefix_extend(items.deep_view(), i as int);
        }
        if i + 1 < n {
            push_char(&mut r, '\n');
            proof {
                assert(r@ =~= join_prefix(items.deep_view(), i as int) + items.deep_view()[i as int]
                    + seq!['\n']);
            }
        }
        i = i + 1;
        proof {
            if i < n {
                assert(r@ =~= join_prefix(items.deep_view(), i as int));
            }
        }
    }
    r
}

/// The joined form of the first `i` items, each followed by a newline.
spec fn join_prefix(items: Seq<Seq<char>>, i: int) -> Seq<char>
    decreases i,
{
    if i <= 0 {
        Seq::empty()
    } else {
        join_prefix(items, i - 1) + items[i - 1] + seq!['\n']
    }
}

/// Extending the joined prefix by the rest of the items gives the full join.
proof fn lemma_join_prefix_extend(items: Seq<Seq<char>>, i: int)
    requires
        0 <= i < items.len(),
    ensures
        i + 1 < items.len() ==> join_lines(items) =~= join_prefix(items, i) + items[i]
            + seq!['\n'] + join_lines(items.skip(i + 1)),
        i + 1 == items.len() ==> join_lines(items) =~= join_prefix(items, i) + items[i],
    decreases i + 1,
{
    if i == 0 {
        if items.len() > 1 {
            assert(items.drop_first() =~= items.skip(1));
        }
    } else {
        lemma_join_prefix_extend(items, i - 1);
        let tail = items.skip(i);
        assert(tail.len() == items.len() - i);
        assert(tail[0] == items[i]);
        if i + 1 < items.len() {
            assert(tail.drop_first() =~= items.skip(i + 1));
            assert(join_lines(tail) == tail[0] + seq!['\n'] + join_lines(tail.drop_first()));
        } else {
            assert(tail.len() == 1);
            assert(join_lines(tail) == items[i]);
        }
    }
}

/// The one variable reference the template language knows.
pub open spec fn placeholder() -> Seq<char> {
    "{{ plugins }}"@
}

/// A template is well formed when every `{{` opens an exact placeholder.
pub open spec fn well_formed(t: Seq<char>) -> bool
    decreases t.len(),
{
    if t.len() == 0 {
        true
    } else if t.len() >= 2 && t[0] == '{' && t[1] == '{' {
        t.len() >= 13 && t.subrange(0, 13) == placeholder() && well_formed(t.skip(13))
    } else {
        well_formed(t.drop_first())
    }
}

/// The template with every placeholder replaced by `block`; meaningful only
/// on well-formed templates.
pub open spec fn subst_val(t: Seq<char>, block: Seq<char>) -> Seq<char>
    decreases t.len(),
{
    if t.len() == 0 {
        Seq::empty()
    } else if t.len() >= 2 && t[0] == '{' && t[1] == '{' {
        if t.len() >= 13 {
            block + subst_val(t.skip(13), block)
        } else {
            Seq::empty()
        }
    } else {
        seq![t[0]] + subst_val(t.drop_first(), block)
    }
}

/// Substituting into the bare placeholder yields the block itself.
pub proof fn lemma_subst_placeholder(block: Seq<char>)
    ensures
        well_formed(placeholder()),
        subst_val(placeholder(), block) =~= block,
{
    reveal_strlit("{{ plugins }}");
    let p = placeholder();
    assert(p.len() == 13);
    assert(p[0] == '{' && p[1] == '{');
    assert(p.subrange(0, 13) =~= p);
    assert(p.skip(13) =~= Seq::<char>::empty());
    assert(well_formed(p.skip(13)));
    assert(subst_val(p.skip(13), block) =~= Seq::<char>::empty());
}

/// A text without any `{` is well formed and substitutes to itself.
pub proof fn lemma_subst_literal(t: Seq<char>)
    requires
        forall|j: int| 0 <= j < t.len() ==> t[j] != '{',
    ensures
        well_formed(t),
        forall|b: Seq<char>| subst_val(t, b) =~= t,
    decreases t.len(),
{
    if t.len() != 0 {
        assert(t[0] != '{');
        assert(forall|j: int| 0 <= j < t.drop_first().len() ==> t.drop_first()[j] != '{');
        lemma_subst_literal(t.drop_first());
        assert forall|b: Seq<char>| subst_val(t, b) =~= t by {
            assert(subst_val(t.drop_first(), b) =~= t.drop_first());
            assert(seq![t[0]] + t.drop_first() =~= t);
        }
    } else {
        assert forall|b: Seq<char>| subst_val(t, b) =~= t by {}
    }
}

/// Expands the template against the given block, replacing each
/// `{{ plugins }}` with the block; `None` when the template is malformed.
pub fn substitute(t: &str, block: &str) -> (r: Option<String>)
    ensures
        r is Some <==> well_formed(t@),
        match r {
            Some(s) => s@ == subst_val(t@, block@),
            None => true,
        },
{
    let n = t.unicode_len();
    let mut out = String::new();
    let mut i: usize = 0;
    proof {
        assert(t@.skip(0) =~= t@);
    }
    while i < n
        invariant
            i <= n,
            n == t@.len(),
            well_formed(t@) <==> well_formed(t@.skip(i as int)),
            well_formed(t@) ==> subst_val(t@, block@) =~= out@ + subst_val(
                t@.skip(i as int),
                block@,
            ),
        decreases n - i,
    {
        let ghost tail = t@.skip(i as int);
        let c = t.get_char(i);
        proof {
            assert(tail.len() == n - i);
            assert(tail[0] == t@[i as int]);
        }
        if c == '{' && i + 1 < n && t.get_char(i + 1) == '{' {
            proof {
                assert(tail[1] == t@[i + 1]);
                assert(tail.len() >= 2 && tail[0] == '{' && tail[1] == '{');
            }
            if n - i >= 13 && str_eq(t.substring_char(i, i + 13), "{{ plugins }}") {
                proof {
                    assert(t@.subrange(i as int, i + 13) =~= tail.subrange(0, 13));
                    assert(tail.subrange(0, 13) == placeholder());
                    assert(tail.skip(13) =~= t@.skip(i + 13));
                    if well_formed(t@) {
                        assert(subst_val(tail, block@) =~= block@ + subst_val(
                            t@.skip(i + 13),
                            block@,
                        ));
                        assert(out@ + subst_val(tail, block@) =~= (out@ + block@) + subst_val(
                            t@.skip(i + 13),
                            block@,
                        ));
                    }
                }
                out.append(block);
                i = i + 13;
            } else {
                proof {
                    if n - i >= 13 {
                        assert(t@.subrange(i as int, i + 13) =~= tail.subrange(0, 13));
                    } else {
                        assert(tail.len() < 13);
                    }
                    assert(!well_formed(tail));
                }
                return None;
            }
        } else {
            proof {
                assert(!(tail.len() >= 2 && tail[0] == '{' && tail[1] == '{'));
                assert(tail.drop_first() =~= t@.skip(i + 1));
                if well_formed(t@) {
                    assert(subst_val(tail, block@) =~= seq![tail[0]] + subst_val(
                        t@.skip(i + 1),
                        block@,
                    ));
                    assert(out@ + subst_val(tail, block@) =~= out@.push(c) + subst_val(
                        t@.skip(i + 1),
                        block@,
                    ));
                }
            }
            push_char(&mut out, c);
            i = i + 1;
        }
    }
    proof {
        assert(t@.skip(n as int) =~= Seq::<char>::empty());
        assert(well_formed(t@));
        assert(subst_val(t@, block@) =~= out@);
    }
    Some(out)
}

} // verus!
