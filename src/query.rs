//! Rewriting of a request's query string: the components that carry the
//! `x-id` parameter are dropped and the survivors are joined back together
//! without any separator.
use vstd::prelude::*;

verus! {

broadcast use vstd::seq_lib::group_seq_properties;

/// The four characters `x-id`.
pub open spec fn x_id_token() -> Seq<char> {
    seq!['x', '-', 'i', 'd']
}

/// Whether a query component's text begins with `x-id`.
pub open spec fn starts_with_x_id(c: Seq<char>) -> bool {
    c.len() >= 4 && c.take(4) == x_id_token()
}

/// Whether a query component survives the rewrite.
pub open spec fn is_kept(c: Seq<char>) -> bool {
    !starts_with_x_id(c)
}

/// The `&`-delimited components of a query string, in order. There is always
/// at least one: the empty string has a single empty component, and each `&`
/// opens a new one.
pub open spec fn query_components(q: Seq<char>) -> Seq<Seq<char>>
    decreases q.len(),
{
    if q.len() == 0 {
        seq![Seq::empty()]
    } else {
        let init = query_components(q.drop_last());
        if q.last() == '&' {
            init.push(Seq::empty())
        } else {
            init.update(init.len() - 1, init.last().push(q.last()))
        }
    }
}

/// `is_kept` as a predicate value, for filtering.
pub open spec fn kept_filter() -> spec_fn(Seq<char>) -> bool {
    |c: Seq<char>| is_kept(c)
}

/// The components of `q` that do not start with `x-id`, in the order they appear.
pub open spec fn kept_components(q: Seq<char>) -> Seq<Seq<char>> {
    query_components(q).filter(kept_filter())
}

/// The rewritten query: the kept components concatenated with no separator.
pub open spec fn stripped_query(q: Seq<char>) -> Seq<char> {
    kept_components(q).flatten()
}

proof fn lemma_components_nonempty(q: Seq<char>)
    ensures
        query_components(q).len() >= 1,
    decreases q.len(),
{
    if q.len() > 0 {
        lemma_components_nonempty(q.drop_last());
    }
}

/// Appends one character to a `String`.
/// Relies on `String::push`, which adds the character at the end.
#[verifier::external_body]
fn push_char(s: &mut String, c: char)
    ensures
        final(s)@ == old(s)@.push(c),
{
    s.push(c)
}

fn append_chars(out: &mut String, cs: &Vec<char>)
    ensures
        final(out)@ == old(out)@ + cs@,
{
    let ghost start = out@;
    for j in 0..cs.len()
        invariant
            out@ == start + cs@.take(j as int),
    {
        push_char(out, cs[j]);
        assert(cs@.take(j + 1) == cs@.take(j as int).push(cs@[j as int]));
    }
    assert(cs@.take(cs@.len() as int) == cs@);
}

fn component_starts_with_x_id(c: &Vec<char>) -> (r: bool)
    ensures
        r == starts_with_x_id(c@),
{
    let r = c.len() >= 4 && c[0] == 'x' && c[1] == '-' && c[2] == 'i' && c[3] == 'd';
    proof {
        if c@.len() >= 4 {
            assert(r ==> c@.take(4) =~= x_id_token());
            assert(c@.take(4) == x_id_token() ==> c@.take(4)[0] == 'x' && c@.take(4)[1] == '-'
                && c@.take(4)[2] == 'i' && c@.take(4)[3] == 'd');
        }
    }
    r
}

proof fn lemma_close_component(done: Seq<Seq<char>>, cur: Seq<char>)
    ensures
        done.push(cur).filter(kept_filter()).flatten() == done.filter(kept_filter()).flatten() + (if is_kept(cur) {
            cur
        } else {
            Seq::empty()
        }),
{
    let p = kept_filter();
    done.lemma_filter_push(cur, p);
    if is_kept(cur) {
        done.filter(kept_filter()).lemma_flatten_push(cur);
    } else {
        assert(done.filter(kept_filter()).flatten() + Seq::<char>::empty() == done.filter(kept_filter()).flatten());
    }
}

/// Closes the component `cur` that follows the completed components `done`:
/// appends it to the output when it is kept.
fn close_component(out: &mut String, cur: &Vec<char>, done: Ghost<Seq<Seq<char>>>)
    requires
        old(out)@ == done@.filter(kept_filter()).flatten(),
    ensures
        final(out)@ == done@.push(cur@).filter(kept_filter()).flatten(),
{
    proof {
        lemma_close_component(done@, cur@);
    }
    let ghost before = out@;
    if !component_starts_with_x_id(cur) {
        append_chars(out, cur);
    }
    assert(out@ =~= before + (if is_kept(cur@) {
        cur@
    } else {
        Seq::empty()
    }));
}

/// Drops every `&`-delimited component of `query` that starts with `x-id` and
/// concatenates the remaining ones, in order, without re-inserting `&`.
pub fn strip_x_id(query: &str) -> (r: String)
    ensures
        r@ == stripped_query(query@),
{
    let ghost q = query@;
    let ghost mut done: Seq<Seq<char>> = Seq::empty();
    let mut cur: Vec<char> = Vec::new();
    let mut out = String::new();
    for ch in it: query.chars()
        invariant
            it.seq() == q,
            it.index() <= q.len(),
            query_components(q.take(it.index() as int)) == done.push(cur@),
            out@ == done.filter(kept_filter()).flatten(),
    {
        let ghost i = it.index() as int;
        assert(q.take(i + 1).drop_last() == q.take(i));
        if ch == '&' {
            close_component(&mut out, &cur, Ghost(done));
            proof {
                done = done.push(cur@);
            }
            cur = Vec::new();
            assert(query_components(q.take(i + 1)) =~= done.push(cur@));
        } else {
            cur.push(ch);
            assert(query_components(q.take(i + 1)) =~= done.push(cur@));
        }
    }
    assert(q.take(q.len() as int) == q);
    close_component(&mut out, &cur, Ghost(done));
    out
}

/// Builds the path-and-query text of a modified request: the request's path,
/// a `?`, and the rewritten query.
pub fn modified_path_and_query(path: &str, query: &str) -> (r: String)
    ensures
        r@ == path@ + seq!['?'] + stripped_query(query@),
{
    let mut r = path.to_owned();
    push_char(&mut r, '?');
    let stripped = strip_x_id(query);
    r.append(stripped.as_str());
    r
}

/// Whether a character sequence holds no `&`.
pub open spec fn has_no_separator(s: Seq<char>) -> bool {
    forall|k: int| 0 <= k < s.len() ==> s[k] != '&'
}

proof fn lemma_components_have_no_separator(q: Seq<char>)
    ensures
        forall|i: int|
            0 <= i < query_components(q).len() ==> has_no_separator(
                #[trigger] query_components(q)[i],
            ),
    decreases q.len(),
{
    if q.len() > 0 {
        lemma_components_have_no_separator(q.drop_last());
        lemma_components_nonempty(q.drop_last());
        let init = query_components(q.drop_last());
        if q.last() != '&' {
            assert(has_no_separator(init[init.len() - 1]));
            assert(has_no_separator(init.last().push(q.last())));
        }
        assert(has_no_separator(Seq::<char>::empty()));
    }
}

proof fn lemma_flatten_has_no_separator(cs: Seq<Seq<char>>)
    requires
        forall|i: int| 0 <= i < cs.len() ==> has_no_separator(#[trigger] cs[i]),
    ensures
        has_no_separator(cs.flatten()),
    decreases cs.len(),
{
    if cs.len() > 0 {
        let rest = cs.drop_first();
        assert forall|i: int| 0 <= i < rest.len() implies has_no_separator(#[trigger] rest[i]) by {
            assert(rest[i] == cs[i + 1]);
        }
        lemma_flatten_has_no_separator(rest);
        assert(has_no_separator(cs[0]));
        let f = cs.first() + rest.flatten();
        assert forall|k: int| 0 <= k < f.len() implies f[k] != '&' by {
            if k >= cs.first().len() {
                assert(f[k] == rest.flatten()[k - cs.first().len()]);
            }
        }
    }
}

proof fn lemma_single_component(s: Seq<char>)
    requires
        has_no_separator(s),
    ensures
        query_components(s) == seq![s],
    decreases s.len(),
{
    if s.len() > 0 {
        lemma_single_component(s.drop_last());
        assert(s.drop_last().push(s.last()) == s);
        assert(query_components(s) =~= seq![s]);
    } else {
        assert(s == Seq::<char>::empty());
    }
}

/// The rewritten query holds no `&`, so read back as a query it is a single
/// component; every component that went into it is one that does not start
/// with `x-id`; and so, unless the joined survivors happen to spell out
/// `x-id` at the front together (as the components of `x&-id=1` do), no
/// component of the rewritten query starts with `x-id`.
pub proof fn lemma_stripped_query_has_no_x_id(q: Seq<char>)
    ensures
        has_no_separator(stripped_query(q)),
        query_components(stripped_query(q)) == seq![stripped_query(q)],
        forall|i: int|
            0 <= i < kept_components(q).len() ==> is_kept(#[trigger] kept_components(q)[i]),
        is_kept(stripped_query(q)) ==> forall|i: int|
            0 <= i < query_components(stripped_query(q)).len() ==> is_kept(
                #[trigger] query_components(stripped_query(q))[i],
            ),
{
    let cs = query_components(q);
    let kept = kept_components(q);
    lemma_components_have_no_separator(q);
    assert forall|i: int| 0 <= i < kept.len() implies has_no_separator(#[trigger] kept[i])
        && is_kept(kept[i]) by {
        cs.lemma_filter_pred(kept_filter(), i);
        cs.lemma_filter_contains_rev(kept_filter(), kept[i]);
        let j = choose|j: int| 0 <= j < cs.len() && cs[j] == kept[i];
        assert(has_no_separator(cs[j]));
    }
    lemma_flatten_has_no_separator(kept);
    lemma_single_component(stripped_query(q));
}

} // verus!
