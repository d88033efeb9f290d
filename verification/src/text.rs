//! Text helpers shared by the rest of the crate.
//!
//! Contracts speak of a string through its view, the sequence of its
//! characters.

use vstd::prelude::*;

verus! {

/// The parts of `parts` written one after another with `sep` between each
/// neighbouring pair. No separator leads or trails; a single part is returned
/// as it is and no parts give the empty text.
pub open spec fn join_spec(parts: Seq<Seq<char>>, sep: Seq<char>) -> Seq<char>
    decreases parts.len(),
{
    if parts.len() == 0 {
        Seq::empty()
    } else if parts.len() == 1 {
        parts[0]
    } else {
        join_spec(parts.drop_last(), sep) + sep + parts.last()
    }
}

/// Appends one character to `s`.
///
/// Trusted: wraps `String::push`, which appends the given `char` to the end
/// of the string and changes nothing else.
#[verifier::external_body]
pub(crate) fn push_char(s: &mut String, c: char)
    ensures
        final(s)@ == old(s)@.push(c),
{
    s.push(c);
}

/// Takes the last character off `s` and returns it; an empty string stays
/// empty and gives `None`.
///
/// Trusted: wraps `String::pop`, which removes the last `char` of the string
/// and returns it, or returns `None` when the string is empty.
#[verifier::external_body]
pub(crate) fn pop_char(s: &mut String) -> (out: Option<char>)
    ensures
        old(s)@.len() == 0 ==> out is None && final(s)@ == old(s)@,
        old(s)@.len() > 0 ==> out == Some(old(s)@.last()) && final(s)@ == old(s)@.drop_last(),
{
    s.pop()
}

/// Tells whether two strings hold the same text.
///
/// Trusted: wraps `str::eq`, which compares the two strings byte for byte.
/// Two valid UTF-8 strings have the same bytes exactly when they have the
/// same characters.
#[verifier::external_body]
pub(crate) fn str_eq(a: &str, b: &str) -> (same: bool)
    ensures
        same == (a@ == b@),
{
    a == b
}

/// Joins `parts` with `sep`.
pub fn join(parts: &Vec<String>, sep: &str) -> (out: String)
    ensures
        out@ == join_spec(parts.deep_view(), sep@),
{
    let mut out = String::new();
    let mut i: usize = 0;
    while i < parts.len()
        invariant
            i <= parts.len(),
            out@ == join_spec(parts.deep_view().take(i as int), sep@),
        decreases parts.len() - i,
    {
        proof {
            let pre = parts.deep_view().take(i as int);
            let cur = parts.deep_view().take(i + 1);
            assert(cur.drop_last() =~= pre);
            assert(cur.last() == parts[i as int]@);
            if i == 0 {
                assert(cur[0] == parts[0]@);
            }
        }
        if i > 0 {
            out.append(sep);
        }
        out.append(parts[i].as_str());
        proof {
            if i == 0 {
                assert(out@ =~= parts[0]@);
            }
        }
        i += 1;
    }
    proof {
        assert(parts.deep_view().take(parts.len() as int) =~= parts.deep_view());
    }
    out
}

/// The characters of a string, one by one.
pub fn chars_of(s: &str) -> (out: Vec<char>)
    ensures
        out@ == s@,
{
    let mut out: Vec<char> = Vec::new();
    let mut chars = s.chars();
    for ch in it: chars
        invariant
            it.seq() == s@,
            out@ == s@.take(it.index() as int),
    {
        out.push(ch);
        proof {
            assert(s@.take(it.index() + 1) =~= s@.take(it.index() as int).push(ch));
        }
    }
    proof {
        assert(s@.take(s@.len() as int) =~= s@);
    }
    out
}

/// The string made of the characters `chars[from..to]`.
pub fn string_of(chars: &Vec<char>, from: usize, to: usize) -> (out: String)
    requires
        from <= to <= chars.len(),
    ensures
        out@ == chars@.subrange(from as int, to as int),
{
    let mut out = String::new();
    let mut i: usize = from;
    while i < to
        invariant
            from <= i <= to <= chars.len(),
            out@ == chars@.subrange(from as int, i as int),
        decreases to - i,
    {
        push_char(&mut out, chars[i]);
        proof {
            assert(chars@.subrange(from as int, i + 1) =~= chars@.subrange(
                from as int,
                i as int,
            ).push(chars[i as int]));
        }
        i += 1;
    }
    out
}

/// Whether `needle` stands in `hay` at position `at`.
pub open spec fn occurs_at(hay: Seq<char>, needle: Seq<char>, at: int) -> bool {
    0 <= at && at + needle.len() <= hay.len() && hay.subrange(at, at + needle.len()) == needle
}

/// Whether `needle` stands somewhere in `hay`. The empty text stands in every
/// text.
pub open spec fn is_infix(hay: Seq<char>, needle: Seq<char>) -> bool {
    exists|at: int| occurs_at(hay, needle, at)
}

/// Whether `hay` begins with `prefix`.
pub open spec fn is_prefix(hay: Seq<char>, prefix: Seq<char>) -> bool {
    occurs_at(hay, prefix, 0)
}

/// Tells whether `needle` stands in `hay` at position `at`.
fn matches_at(hay: &Vec<char>, needle: &Vec<char>, at: usize) -> (out: bool)
    requires
        at + needle.len() <= hay.len(),
    ensures
        out == occurs_at(hay@, needle@, at as int),
{
    let mut j: usize = 0;
    while j < needle.len()
        invariant
            j <= needle.len(),
            at + needle.len() <= hay.len(),
            forall|k: int| 0 <= k < j ==> hay[at + k] == needle[k],
        decreases needle.len() - j,
    {
        if hay[at + j] != needle[j] {
            proof {
                let window = hay@.subrange(at as int, at + needle.len());
                assert(window[j as int] == hay[at + j]);
            }
            return false;
        }
        j += 1;
    }
    proof {
        assert(hay@.subrange(at as int, at + needle.len()) =~= needle@);
    }
    true
}

/// Tells whether `needle` stands somewhere in `hay`.
pub fn contains_text(hay: &str, needle: &str) -> (out: bool)
    ensures
        out == is_infix(hay@, needle@),
{
    let h = chars_of(hay);
    let n = chars_of(needle);
    if n.len() > h.len() {
        return false;
    }
    let last: usize = h.len() - n.len();
    let mut at: usize = 0;
    loop
        invariant
            at <= last,
            last == h.len() - n.len(),
            n.len() <= h.len(),
            h@ == hay@,
            n@ == needle@,
            forall|k: int| 0 <= k < at ==> !occurs_at(h@, n@, k),
        decreases last - at,
    {
        if matches_at(&h, &n, at) {
            return true;
        }
        if at == last {
            return false;
        }
        at += 1;
    }
}

/// Tells whether `hay` begins with `prefix`.
pub fn starts_with_text(hay: &str, prefix: &str) -> (out: bool)
    ensures
        out == is_prefix(hay@, prefix@),
{
    let h = chars_of(hay);
    let p = chars_of(prefix);
    if p.len() > h.len() {
        return false;
    }
    matches_at(&h, &p, 0)
}

/// The lower-case form of a text, as Unicode defines it.
pub uninterp spec fn lowercase_spec(s: Seq<char>) -> Seq<char>;

/// Returns the lower-case form of `s`.
///
/// Trusted: wraps `str::to_lowercase`. The result depends on the text alone;
/// the mapping is Unicode's and is not written out here.
#[verifier::external_body]
pub(crate) fn lowercase(s: &str) -> (out: String)
    ensures
        out@ == lowercase_spec(s@),
{
    s.to_lowercase()
}

/// Whether `needle` stands in `hay` when letter case is ignored, that is when
/// both are taken in lower case.
pub open spec fn is_infix_ignoring_case(hay: Seq<char>, needle: Seq<char>) -> bool {
    is_infix(lowercase_spec(hay), lowercase_spec(needle))
}

/// Tells whether `needle` stands in `hay` when letter case is ignored.
pub fn contains_ignoring_case(hay: &str, needle: &str) -> (out: bool)
    ensures
        out == is_infix_ignoring_case(hay@, needle@),
{
    let h = lowercase(hay);
    let n = lowercase(needle);
    contains_text(h.as_str(), n.as_str())
}

/// Whether `a` comes strictly before `b` in the order of strings: the first
/// character in which they differ decides, by its code point, and a proper
/// prefix comes first.
pub open spec fn text_lt(a: Seq<char>, b: Seq<char>) -> bool
    decreases a.len(),
{
    if b.len() == 0 {
        false
    } else if a.len() == 0 {
        true
    } else if a[0] != b[0] {
        a[0] < b[0]
    } else {
        text_lt(a.skip(1), b.skip(1))
    }
}

/// Tells whether `a` comes strictly before `b` in the order of strings.
pub fn text_before(a: &str, b: &str) -> (out: bool)
    ensures
        out == text_lt(a@, b@),
{
    let x = chars_of(a);
    let y = chars_of(b);
    let mut i: usize = 0;
    proof {
        assert(x@.skip(0) =~= x@);
        assert(y@.skip(0) =~= y@);
    }
    while i < x.len() && i < y.len()
        invariant
            i <= x.len(),
            i <= y.len(),
            x@ == a@,
            y@ == b@,
            text_lt(a@, b@) == text_lt(x@.skip(i as int), y@.skip(i as int)),
        decreases x.len() - i,
    {
        proof {
            let xs = x@.skip(i as int);
            let ys = y@.skip(i as int);
            assert(xs[0] == x[i as int]);
            assert(ys[0] == y[i as int]);
            assert(xs.skip(1) =~= x@.skip(i + 1));
            assert(ys.skip(1) =~= y@.skip(i + 1));
        }
        if x[i] != y[i] {
            return x[i] < y[i];
        }
        i += 1;
    }
    proof {
        assert(x@.skip(i as int).len() == x.len() - i);
        assert(y@.skip(i as int).len() == y.len() - i);
    }
    i < y.len()
}

/// A list of indices as a sequence of integers.
pub open spec fn as_places(v: Seq<usize>) -> Seq<int> {
    Seq::new(v.len(), |i: int| v[i] as int)
}

/// The places `0..names.len()` in the order of their names. Places with the
/// same name keep their order. The last place is put behind every place
/// whose name does not come after its own.
pub open spec fn name_order(names: Seq<Seq<char>>) -> Seq<int>
    decreases names.len(),
{
    if names.len() == 0 {
        Seq::empty()
    } else {
        place_in_order(names, name_order(names.drop_last()), names.len() - 1)
    }
}

/// The order `order` with the place `place` put in: before the trailing
/// places whose names come strictly after the name at `place`.
pub open spec fn place_in_order(names: Seq<Seq<char>>, order: Seq<int>, place: int) -> Seq<int>
    decreases order.len(),
{
    if order.len() == 0 {
        seq![place]
    } else if text_lt(names[place], names[order.last()]) {
        place_in_order(names, order.drop_last(), place).push(order.last())
    } else {
        order.push(place)
    }
}

/// No text comes before itself.
pub proof fn lemma_text_lt_irreflexive(a: Seq<char>)
    ensures
        !text_lt(a, a),
    decreases a.len(),
{
    if a.len() > 0 {
        lemma_text_lt_irreflexive(a.skip(1));
    }
}

/// Of two texts at most one comes before the other.
pub proof fn lemma_text_lt_asymmetric(a: Seq<char>, b: Seq<char>)
    requires
        text_lt(a, b),
    ensures
        !text_lt(b, a),
    decreases a.len(),
{
    if a.len() > 0 && b.len() > 0 && a[0] == b[0] {
        lemma_text_lt_asymmetric(a.skip(1), b.skip(1));
    }
}

/// What comes before a text comes before everything the text comes before.
pub proof fn lemma_text_lt_transitive(a: Seq<char>, b: Seq<char>, c: Seq<char>)
    requires
        text_lt(a, b),
        text_lt(b, c),
    ensures
        text_lt(a, c),
    decreases a.len(),
{
    if a.len() > 0 && a[0] == b[0] && b[0] == c[0] {
        lemma_text_lt_transitive(a.skip(1), b.skip(1), c.skip(1));
    }
}

/// Of two different texts one comes before the other.
pub proof fn lemma_text_lt_total(a: Seq<char>, b: Seq<char>)
    ensures
        a == b || text_lt(a, b) || text_lt(b, a),
    decreases a.len(),
{
    if a.len() == 0 || b.len() == 0 {
        if a.len() == 0 && b.len() == 0 {
            assert(a =~= b);
        }
    } else if a[0] == b[0] {
        lemma_text_lt_total(a.skip(1), b.skip(1));
        if a.skip(1) == b.skip(1) {
            assert(a.len() == a.skip(1).len() + 1);
            assert(b.len() == b.skip(1).len() + 1);
            assert forall|i: int| 0 <= i < a.len() implies a[i] == b[i] by {
                if i > 0 {
                    assert(a[i] == a.skip(1)[i - 1]);
                    assert(b[i] == b.skip(1)[i - 1]);
                }
            }
            assert(a =~= b);
        }
    }
}

/// If `z` does not come before `y` and `y` does not come before `x`, then
/// `z` does not come before `x`.
pub proof fn lemma_text_not_before_transitive(x: Seq<char>, y: Seq<char>, z: Seq<char>)
    requires
        !text_lt(y, x),
        !text_lt(z, y),
    ensures
        !text_lt(z, x),
{
    lemma_text_lt_total(x, y);
    lemma_text_lt_total(y, z);
    if text_lt(z, x) {
        if x == y {
        } else if y == z {
        } else {
            lemma_text_lt_transitive(x, y, z);
            lemma_text_lt_asymmetric(x, z);
        }
    }
}

/// Where the scan from the back of `order` stops for the place `place`:
/// behind the last place whose name does not come after the name at
/// `place`.
pub open spec fn stop_of(names: Seq<Seq<char>>, order: Seq<int>, place: int) -> int
    decreases order.len(),
{
    if order.len() == 0 {
        0
    } else if text_lt(names[place], names[order.last()]) {
        stop_of(names, order.drop_last(), place)
    } else {
        order.len() as int
    }
}

/// The scan stops within the order, every place behind the stop has a name
/// that comes after, the place just before it has not, and the place is put
/// in at the stop.
pub proof fn lemma_stop_of(names: Seq<Seq<char>>, order: Seq<int>, place: int)
    ensures
        0 <= stop_of(names, order, place) <= order.len(),
        forall|k: int|
            stop_of(names, order, place) <= k < order.len() ==> text_lt(
                names[place],
                names[#[trigger] order[k]],
            ),
        stop_of(names, order, place) == 0 || !text_lt(
            names[place],
            names[order[stop_of(names, order, place) - 1]],
        ),
        place_in_order(names, order, place) == order.insert(stop_of(names, order, place), place),
    decreases order.len(),
{
    let at = stop_of(names, order, place);
    if order.len() > 0 && text_lt(names[place], names[order.last()]) {
        let shorter = order.drop_last();
        lemma_stop_of(names, shorter, place);
        assert forall|k: int| at <= k < order.len() implies text_lt(
            names[place],
            names[#[trigger] order[k]],
        ) by {
            if k < shorter.len() {
                assert(shorter[k] == order[k]);
            }
        }
        if at > 0 {
            assert(shorter[at - 1] == order[at - 1]);
        }
    }
    lemma_place_in_order(names, order, place, at);
}

/// Whether `order` lists the places of `names` in the order of their
/// names: every place once, no name before a name that comes before it, and
/// places of the same name in rising order.
pub open spec fn is_ordering(names: Seq<Seq<char>>, order: Seq<int>) -> bool {
    &&& order.len() == names.len()
    &&& forall|k: int| 0 <= k < order.len() ==> 0 <= #[trigger] order[k] < names.len()
    &&& forall|i: int, j: int|
        0 <= i < j < order.len() ==> #[trigger] order[i] != #[trigger] order[j]
    &&& forall|i: int, j: int|
        0 <= i < j < order.len() ==> !text_lt(
            names[#[trigger] order[j]],
            names[#[trigger] order[i]],
        )
    &&& forall|i: int, j: int|
        0 <= i < j < order.len() && names[#[trigger] order[i]] == names[#[trigger] order[j]]
            ==> order[i] < order[j]
}

/// The order of the names is an ordering: it holds every place once, it is
/// sorted, and places with the same name keep their order.
pub proof fn lemma_name_order_sorts(names: Seq<Seq<char>>)
    ensures
        is_ordering(names, name_order(names)),
    decreases names.len(),
{
    if names.len() > 0 {
        let shorter = names.drop_last();
        let before = name_order(shorter);
        let place = names.len() - 1;
        lemma_name_order_sorts(shorter);
        lemma_stop_of(names, before, place);
        let at = stop_of(names, before, place);
        let order = name_order(names);
        assert(order == before.insert(at, place));
        assert forall|k: int| 0 <= k < before.len() implies names[#[trigger] before[k]]
            == shorter[before[k]] by {}
        assert forall|i: int, j: int| 0 <= i < j < order.len() implies !text_lt(
            names[#[trigger] order[j]],
            names[#[trigger] order[i]],
        ) && order[i] != order[j] && (names[order[i]] == names[order[j]] ==> order[i]
            < order[j]) by {
            if j == at {
                // `order[j]` is the new place; `order[i]` stood before the stop.
                assert(order[i] == before[i]);
                assert(!text_lt(names[place], names[before[at - 1]]));
                if i < at - 1 {
                    assert(!text_lt(shorter[before[at - 1]], shorter[before[i]]));
                    lemma_text_not_before_transitive(
                        names[before[i]],
                        names[before[at - 1]],
                        names[place],
                    );
                }
            } else if i == at {
                // `order[i]` is the new place; `order[j]` stood behind the stop.
                assert(order[j] == before[j - 1]);
                assert(text_lt(names[place], names[before[j - 1]]));
                lemma_text_lt_asymmetric(names[place], names[before[j - 1]]);
                lemma_text_lt_irreflexive(names[place]);
            } else {
                let i0 = if i < at {
                    i
                } else {
                    i - 1
                };
                let j0 = if j < at {
                    j
                } else {
                    j - 1
                };
                assert(order[i] == before[i0]);
                assert(order[j] == before[j0]);
                assert(!text_lt(shorter[before[j0]], shorter[before[i0]]));
            }
        }
        assert forall|k: int| 0 <= k < order.len() implies 0 <= #[trigger] order[k]
            < names.len() by {
            if k < at {
                assert(order[k] == before[k]);
            } else if k > at {
                assert(order[k] == before[k - 1]);
            }
        }
    }
}

/// Putting a place in is an insertion at the place where the scan from the
/// back stops.
pub proof fn lemma_place_in_order(names: Seq<Seq<char>>, order: Seq<int>, place: int, at: int)
    requires
        0 <= at <= order.len(),
        forall|k: int| at <= k < order.len() ==> text_lt(names[place], names[#[trigger] order[k]]),
        at == 0 || !text_lt(names[place], names[order[at - 1]]),
    ensures
        place_in_order(names, order, place) == order.insert(at, place),
    decreases order.len(),
{
    if order.len() == 0 {
        assert(order.insert(at, place) =~= seq![place]);
    } else if at == order.len() {
        assert(order.insert(at, place) =~= order.push(place));
    } else {
        assert(text_lt(names[place], names[order[order.len() - 1]]));
        lemma_place_in_order(names, order.drop_last(), place, at);
        assert(order.insert(at, place) =~= order.drop_last().insert(at, place).push(order.last()));
    }
}

/// Returns the places of `names` in the order of their names; places with
/// the same name keep their order.
pub fn order_by_name(names: &Vec<String>) -> (out: Vec<usize>)
    ensures
        as_places(out@) == name_order(names.deep_view()),
        out.len() == names.len(),
        forall|k: int| 0 <= k < out.len() ==> (#[trigger] out[k]) < names.len(),
{
    let mut out: Vec<usize> = Vec::new();
    let ghost all = names.deep_view();
    let mut i: usize = 0;
    proof {
        assert(as_places(out@) =~= name_order(all.take(0)));
    }
    while i < names.len()
        invariant
            i <= names.len(),
            all == names.deep_view(),
            out.len() == i,
            forall|k: int| 0 <= k < out.len() ==> (#[trigger] out[k]) < i,
            as_places(out@) == name_order(all.take(i as int)),
        decreases names.len() - i,
    {
        let ghost order = as_places(out@);
        let ghost seen = all.take(i + 1);
        proof {
            assert(seen.drop_last() =~= all.take(i as int));
        }
        let mut at: usize = out.len();
        while at > 0 && text_before(names[i].as_str(), names[out[at - 1]].as_str())
            invariant
                at <= out.len(),
                out.len() == i,
                i < names.len(),
                all == names.deep_view(),
                seen == all.take(i + 1),
                order == as_places(out@),
                forall|k: int| 0 <= k < out.len() ==> (#[trigger] out[k]) < i,
                forall|k: int|
                    at <= k < order.len() ==> text_lt(seen[i as int], seen[#[trigger] order[k]]),
            decreases at,
        {
            proof {
                assert(order[at - 1] == out[at - 1]);
                assert(seen[order[at - 1]] == names[out[at - 1] as int]@);
            }
            at -= 1;
        }
        proof {
            assert(seen[i as int] == names[i as int]@);
            if at > 0 {
                assert(order[at - 1] == out[at - 1]);
                assert(seen[order[at - 1]] == names[out[at - 1] as int]@);
            }
            lemma_place_in_order(seen, order, i as int, at as int);
        }
        out.insert(at, i);
        proof {
            assert(as_places(out@) =~= order.insert(at as int, i as int));
        }
        i += 1;
    }
    proof {
        assert(all.take(all.len() as int) =~= all);
    }
    out
}

/// The places at which `keep` holds, in rising order.
pub open spec fn kept_places(keep: Seq<bool>) -> Seq<int>
    decreases keep.len(),
{
    if keep.len() == 0 {
        Seq::empty()
    } else if keep.last() {
        kept_places(keep.drop_last()).push(keep.len() - 1)
    } else {
        kept_places(keep.drop_last())
    }
}

/// Every kept place lies within `keep`, and the kept places are no more than
/// the places.
pub proof fn lemma_kept_places_bounds(keep: Seq<bool>)
    ensures
        kept_places(keep).len() <= keep.len(),
        forall|k: int|
            0 <= k < kept_places(keep).len() ==> 0 <= (#[trigger] kept_places(keep)[k])
                < keep.len() && keep[kept_places(keep)[k]],
    decreases keep.len(),
{
    if keep.len() > 0 {
        lemma_kept_places_bounds(keep.drop_last());
        let before = kept_places(keep.drop_last());
        assert forall|k: int| 0 <= k < kept_places(keep).len() implies 0 <= (#[trigger] kept_places(
            keep,
        )[k]) < keep.len() && keep[kept_places(keep)[k]] by {
            if k < before.len() {
                assert(kept_places(keep)[k] == before[k]);
                assert(keep.drop_last()[before[k]] == keep[before[k]]);
            }
        }
    }
}

/// Whether a row called `name` passes the filter `query`: an empty query
/// lets every row pass, another one the rows whose name holds it, letter
/// case ignored.
pub open spec fn passes_filter(name: Seq<char>, query: Seq<char>) -> bool {
    query.len() == 0 || is_infix_ignoring_case(name, query)
}

/// Tells whether a row called `name` passes the filter `query`.
pub fn filter_accepts(name: &str, query: &str) -> (out: bool)
    ensures
        out == passes_filter(name@, query@),
{
    if query.unicode_len() == 0 {
        true
    } else {
        contains_ignoring_case(name, query)
    }
}

/// Whether a character is white space, as Unicode defines it.
pub uninterp spec fn is_white_space(c: char) -> bool;

/// Tells whether a character is white space.
///
/// Trusted: wraps `char::is_whitespace`, which tells whether the character
/// has Unicode's `White_Space` property. The answer depends on the character
/// alone; the set is Unicode's and is not written out here.
#[verifier::external_body]
pub(crate) fn char_is_white_space(c: char) -> (out: bool)
    ensures
        out == is_white_space(c),
{
    c.is_whitespace()
}

/// A text without the white space it begins with.
pub open spec fn trim_start_spec(s: Seq<char>) -> Seq<char>
    decreases s.len(),
{
    if s.len() > 0 && is_white_space(s.first()) {
        trim_start_spec(s.drop_first())
    } else {
        s
    }
}

/// A text without the white space it ends with.
pub open spec fn trim_end_spec(s: Seq<char>) -> Seq<char>
    decreases s.len(),
{
    if s.len() > 0 && is_white_space(s.last()) {
        trim_end_spec(s.drop_last())
    } else {
        s
    }
}

/// A text without the white space it begins and ends with.
pub open spec fn trim_spec(s: Seq<char>) -> Seq<char> {
    trim_end_spec(trim_start_spec(s))
}

/// Finds where the text of `chars[from..to]` begins once leading white space
/// is left out.
fn skip_white_space(chars: &Vec<char>, from: usize, to: usize) -> (out: usize)
    requires
        from <= to <= chars.len(),
    ensures
        from <= out <= to,
        trim_start_spec(chars@.subrange(from as int, to as int)) == chars@.subrange(
            out as int,
            to as int,
        ),
{
    let mut at: usize = from;
    while at < to && char_is_white_space(chars[at])
        invariant
            from <= at <= to <= chars.len(),
            trim_start_spec(chars@.subrange(from as int, to as int)) == trim_start_spec(
                chars@.subrange(at as int, to as int),
            ),
        decreases to - at,
    {
        proof {
            let rest = chars@.subrange(at as int, to as int);
            assert(rest.first() == chars[at as int]);
            assert(rest.drop_first() =~= chars@.subrange(at + 1, to as int));
        }
        at += 1;
    }
    proof {
        let rest = chars@.subrange(at as int, to as int);
        if at < to {
            assert(rest.first() == chars[at as int]);
        }
    }
    at
}

/// Finds where the text of `chars[from..to]` ends once trailing white space
/// is left out.
fn drop_white_space(chars: &Vec<char>, from: usize, to: usize) -> (out: usize)
    requires
        from <= to <= chars.len(),
    ensures
        from <= out <= to,
        trim_end_spec(chars@.subrange(from as int, to as int)) == chars@.subrange(
            from as int,
            out as int,
        ),
{
    let mut at: usize = to;
    while at > from && char_is_white_space(chars[at - 1])
        invariant
            from <= at <= to <= chars.len(),
            trim_end_spec(chars@.subrange(from as int, to as int)) == trim_end_spec(
                chars@.subrange(from as int, at as int),
            ),
        decreases at - from,
    {
        proof {
            let rest = chars@.subrange(from as int, at as int);
            assert(rest.last() == chars[at - 1]);
            assert(rest.drop_last() =~= chars@.subrange(from as int, at - 1));
        }
        at -= 1;
    }
    proof {
        let rest = chars@.subrange(from as int, at as int);
        if at > from {
            assert(rest.last() == chars[at - 1]);
        }
    }
    at
}

/// Returns `s` without the white space it begins with.
pub fn trim_start(s: &str) -> (out: String)
    ensures
        out@ == trim_start_spec(s@),
{
    let chars = chars_of(s);
    proof {
        assert(chars@.subrange(0, chars.len() as int) =~= chars@);
    }
    let from = skip_white_space(&chars, 0, chars.len());
    string_of(&chars, from, chars.len())
}

/// Returns `s` without the white space it begins and ends with.
pub fn trim(s: &str) -> (out: String)
    ensures
        out@ == trim_spec(s@),
{
    let chars = chars_of(s);
    proof {
        assert(chars@.subrange(0, chars.len() as int) =~= chars@);
    }
    let from = skip_white_space(&chars, 0, chars.len());
    let to = drop_white_space(&chars, from, chars.len());
    string_of(&chars, from, to)
}

/// A text without the copies of `prefix` it begins with, however many there
/// are one after another. An empty prefix takes nothing away.
pub open spec fn strip_prefixes_spec(s: Seq<char>, prefix: Seq<char>) -> Seq<char>
    decreases s.len(),
{
    if prefix.len() > 0 && is_prefix(s, prefix) {
        strip_prefixes_spec(s.skip(prefix.len() as int), prefix)
    } else {
        s
    }
}

/// Returns `s` without the copies of `prefix` it begins with.
pub fn strip_prefixes(s: &str, prefix: &str) -> (out: String)
    ensures
        out@ == strip_prefixes_spec(s@, prefix@),
{
    let chars = chars_of(s);
    let p = chars_of(prefix);
    let mut at: usize = 0;
    proof {
        assert(chars@.skip(0) =~= chars@);
    }
    if p.len() > 0 {
        while p.len() <= chars.len() - at
            invariant
                at <= chars.len(),
                p.len() > 0,
                p@ == prefix@,
                chars@ == s@,
                strip_prefixes_spec(s@, prefix@) == strip_prefixes_spec(
                    chars@.skip(at as int),
                    prefix@,
                ),
            decreases chars.len() - at,
        {
            let here = matches_at(&chars, &p, at);
            proof {
                let rest = chars@.skip(at as int);
                assert(rest.subrange(0, p.len() as int) =~= chars@.subrange(
                    at as int,
                    at + p.len(),
                ));
                assert(is_prefix(rest, p@) == here);
                assert(rest.skip(p.len() as int) =~= chars@.skip(at + p.len()));
            }
            if !here {
                proof {
                    assert(chars@.skip(at as int) =~= chars@.subrange(
                        at as int,
                        chars.len() as int,
                    ));
                }
                return string_of(&chars, at, chars.len());
            }
            at += p.len();
        }
    }
    proof {
        assert(chars@.skip(at as int) =~= chars@.subrange(at as int, chars.len() as int));
    }
    string_of(&chars, at, chars.len())
}

/// The text `a` followed by the text `b`.
pub fn concat_str(a: &str, b: &str) -> (out: String)
    ensures
        out@ == a@ + b@,
{
    let mut out = String::from_str(a);
    out.append(b);
    out
}

/// The character of a decimal digit.
pub open spec fn digit_char(d: int) -> char {
    if d == 0 {
        '0'
    } else if d == 1 {
        '1'
    } else if d == 2 {
        '2'
    } else if d == 3 {
        '3'
    } else if d == 4 {
        '4'
    } else if d == 5 {
        '5'
    } else if d == 6 {
        '6'
    } else if d == 7 {
        '7'
    } else if d == 8 {
        '8'
    } else {
        '9'
    }
}

/// A number written in decimal digits, without leading zeros.
pub open spec fn decimal_spec(n: nat) -> Seq<char>
    decreases n,
{
    if n < 10 {
        seq![digit_char(n as int)]
    } else {
        decimal_spec(n / 10).push(digit_char((n % 10) as int))
    }
}

/// Returns the character of the decimal digit `d`.
fn digit(d: usize) -> (out: char)
    requires
        d < 10,
    ensures
        out == digit_char(d as int),
{
    match d {
        0 => '0',
        1 => '1',
        2 => '2',
        3 => '3',
        4 => '4',
        5 => '5',
        6 => '6',
        7 => '7',
        8 => '8',
        _ => '9',
    }
}

/// Writes a number in decimal digits.
pub fn decimal(n: usize) -> (out: String)
    ensures
        out@ == decimal_spec(n as nat),
{
    // The digits come out last first.
    let mut digits: Vec<char> = Vec::new();
    let mut rest: usize = n;
    while rest >= 10
        invariant
            decimal_spec(n as nat) == decimal_spec(rest as nat) + digits@.reverse(),
        decreases rest,
    {
        let ghost before = digits@;
        digits.push(digit(rest % 10));
        proof {
            assert(digits@.reverse() =~= seq![digit_char((rest % 10) as int)] + before.reverse());
            assert(decimal_spec(rest as nat) =~= decimal_spec((rest / 10) as nat) + seq![
                digit_char((rest % 10) as int),
            ]);
        }
        rest = rest / 10;
    }
    let mut out = String::new();
    push_char(&mut out, digit(rest));
    let mut i: usize = digits.len();
    while i > 0
        invariant
            i <= digits.len(),
            out@ == decimal_spec(rest as nat) + digits@.reverse().take(digits.len() - i),
        decreases i,
    {
        i -= 1;
        push_char(&mut out, digits[i]);
        proof {
            let rev = digits@.reverse();
            assert(rev[digits.len() - 1 - i] == digits[i as int]);
            assert(rev.take(digits.len() - i) =~= rev.take(digits.len() - 1 - i).push(
                digits[i as int],
            ));
        }
    }
    proof {
        assert(digits@.reverse().take(digits.len() as int) =~= digits@.reverse());
    }
    out
}

/// The pieces of a text between the occurrences of `sep`. A text without
/// `sep` is one piece, and so is the empty text; a `sep` at either end has
/// an empty piece beside it.
pub open spec fn split_spec(s: Seq<char>, sep: char) -> Seq<Seq<char>>
    decreases s.len(),
{
    if s.len() == 0 {
        seq![Seq::empty()]
    } else {
        let before = split_spec(s.drop_last(), sep);
        if s.last() == sep {
            before.push(Seq::empty())
        } else {
            before.drop_last().push(before.last().push(s.last()))
        }
    }
}

/// A text always has at least one piece.
pub proof fn lemma_split_nonempty(s: Seq<char>, sep: char)
    ensures
        split_spec(s, sep).len() >= 1,
    decreases s.len(),
{
    if s.len() > 0 {
        lemma_split_nonempty(s.drop_last(), sep);
    }
}

/// Splits a text at the occurrences of `sep`.
pub fn split(s: &str, sep: char) -> (out: Vec<String>)
    ensures
        out.deep_view() == split_spec(s@, sep),
{
    let chars = chars_of(s);
    let mut done: Vec<String> = Vec::new();
    let mut piece = String::new();
    let mut i: usize = 0;
    proof {
        assert(chars@.take(0) =~= Seq::<char>::empty());
        assert(done.deep_view().push(piece@) =~= seq![Seq::<char>::empty()]);
    }
    while i < chars.len()
        invariant
            i <= chars.len(),
            chars@ == s@,
            done.deep_view().push(piece@) == split_spec(chars@.take(i as int), sep),
        decreases chars.len() - i,
    {
        let ghost before = done.deep_view();
        let ghost open_piece = piece@;
        proof {
            let next = chars@.take(i + 1);
            assert(next.drop_last() =~= chars@.take(i as int));
            assert(next.last() == chars[i as int]);
            assert(before.push(open_piece).drop_last() =~= before);
            assert(before.push(open_piece).last() == open_piece);
        }
        if chars[i] == sep {
            done.push(piece);
            piece = String::new();
            proof {
                assert(done.deep_view() =~= before.push(open_piece));
            }
        } else {
            push_char(&mut piece, chars[i]);
        }
        i += 1;
    }
    proof {
        assert(chars@.take(chars.len() as int) =~= chars@);
    }
    let ghost before = done.deep_view();
    done.push(piece);
    proof {
        assert(done.deep_view() =~= before.push(piece@));
    }
    done
}

/// The texts of `pieces` without surrounding white space, those left out
/// that are empty then.
pub open spec fn trimmed_nonempty(pieces: Seq<Seq<char>>) -> Seq<Seq<char>>
    decreases pieces.len(),
{
    if pieces.len() == 0 {
        Seq::empty()
    } else {
        let before = trimmed_nonempty(pieces.drop_last());
        if trim_spec(pieces.last()).len() == 0 {
            before
        } else {
            before.push(trim_spec(pieces.last()))
        }
    }
}

/// Trims each of `pieces` and leaves out those that are empty then.
pub fn trim_all_nonempty(pieces: &Vec<String>) -> (out: Vec<String>)
    ensures
        out.deep_view() == trimmed_nonempty(pieces.deep_view()),
{
    let ghost all = pieces.deep_view();
    let mut out: Vec<String> = Vec::new();
    let mut i: usize = 0;
    while i < pieces.len()
        invariant
            i <= pieces.len(),
            all == pieces.deep_view(),
            out.deep_view() == trimmed_nonempty(all.take(i as int)),
        decreases pieces.len() - i,
    {
        let ghost before = out.deep_view();
        proof {
            assert(all[i as int] == pieces[i as int]@);
            assert(all.take(i + 1).drop_last() =~= all.take(i as int));
        }
        let t = trim(pieces[i].as_str());
        if t.as_str().unicode_len() > 0 {
            out.push(t);
            proof {
                assert(out.deep_view() =~= before.push(trim_spec(all[i as int])));
            }
        }
        i += 1;
    }
    proof {
        assert(all.take(all.len() as int) =~= all);
    }
    out
}

/// A text without its last character, if it has one.
pub open spec fn without_last(s: Seq<char>) -> Seq<char> {
    if s.len() > 0 {
        s.drop_last()
    } else {
        s
    }
}

/// `count` spaces.
pub open spec fn spaces(count: nat) -> Seq<char> {
    Seq::new(count, |i: int| ' ')
}

/// A text filled up with spaces behind it to `width` characters; a longer
/// text stays as it is.
pub open spec fn padded_right(s: Seq<char>, width: nat) -> Seq<char> {
    if s.len() >= width {
        s
    } else {
        s + spaces((width - s.len()) as nat)
    }
}

/// A text filled up with spaces before it to `width` characters; a longer
/// text stays as it is.
pub open spec fn padded_left(s: Seq<char>, width: nat) -> Seq<char> {
    if s.len() >= width {
        s
    } else {
        spaces((width - s.len()) as nat) + s
    }
}

/// Appends `count` spaces to `out`.
fn push_spaces(out: &mut String, count: usize)
    ensures
        final(out)@ == old(out)@ + spaces(count as nat),
{
    let mut i: usize = 0;
    proof {
        assert(out@ =~= old(out)@ + spaces(0));
    }
    while i < count
        invariant
            i <= count,
            out@ == old(out)@ + spaces(i as nat),
        decreases count - i,
    {
        push_char(out, ' ');
        proof {
            assert(out@ =~= old(out)@ + spaces((i + 1) as nat));
        }
        i += 1;
    }
}

/// Fills a text up with spaces behind it to `width` characters.
pub fn pad_right(s: &str, width: usize) -> (out: String)
    ensures
        out@ == padded_right(s@, width as nat),
{
    let len = s.unicode_len();
    let mut out = String::from_str(s);
    if len < width {
        push_spaces(&mut out, width - len);
    }
    out
}

/// Fills a text up with spaces before it to `width` characters.
pub fn pad_left(s: &str, width: usize) -> (out: String)
    ensures
        out@ == padded_left(s@, width as nat),
{
    let len = s.unicode_len();
    let mut out = String::new();
    if len < width {
        push_spaces(&mut out, width - len);
    }
    out.append(s);
    proof {
        if len >= width {
            assert(out@ =~= s@);
        }
    }
    out
}

/// A piece of text that was ended by a line feed, as a line: without the
/// carriage return that may stand before the line feed.
pub open spec fn ended_line(piece: Seq<char>) -> Seq<char> {
    if piece.len() > 0 && piece.last() == '\r' {
        piece.drop_last()
    } else {
        piece
    }
}

/// The lines of a text.
///
/// A line ends at a line feed; a carriage return just before the line feed
/// belongs to the line ending. The last line needs no line ending, and a
/// text that ends with a line ending has no empty line after it.
pub open spec fn lines_spec(s: Seq<char>) -> Seq<Seq<char>> {
    let pieces = split_spec(s, '\n');
    let ended = pieces.drop_last();
    let lines = Seq::new(ended.len(), |i: int| ended_line(ended[i]));
    if pieces.last().len() == 0 {
        lines
    } else {
        lines.push(pieces.last())
    }
}

/// Splits a text into its lines.
pub fn lines(s: &str) -> (out: Vec<String>)
    ensures
        out.deep_view() == lines_spec(s@),
{
    let pieces = split(s, '\n');
    proof {
        lemma_split_nonempty(s@, '\n');
    }
    let ghost all = pieces.deep_view();
    let ghost ended = all.drop_last();
    let ghost expected = Seq::new(ended.len(), |i: int| ended_line(ended[i]));
    let mut out: Vec<String> = Vec::new();
    let mut i: usize = 0;
    while i < pieces.len() - 1
        invariant
            pieces.len() >= 1,
            i <= pieces.len() - 1,
            all == pieces.deep_view(),
            ended == all.drop_last(),
            expected == Seq::new(ended.len(), |i: int| ended_line(ended[i])),
            out.deep_view() == expected.take(i as int),
        decreases pieces.len() - 1 - i,
    {
        let ghost before = out.deep_view();
        let mut line = pieces[i].clone();
        let chars = chars_of(line.as_str());
        if chars.len() > 0 && chars[chars.len() - 1] == '\r' {
            pop_char(&mut line);
        }
        proof {
            assert(ended[i as int] == pieces[i as int]@);
            assert(line@ == expected[i as int]);
        }
        out.push(line);
        proof {
            assert(out.deep_view() =~= before.push(expected[i as int]));
            assert(out.deep_view() =~= expected.take(i + 1));
        }
        i += 1;
    }
    proof {
        assert(expected.take(expected.len() as int) =~= expected);
        assert(all.last() == pieces[pieces.len() - 1]@);
    }
    let rest = &pieces[pieces.len() - 1];
    if rest.as_str().unicode_len() > 0 {
        let ghost before = out.deep_view();
        out.push(rest.clone());
        proof {
            assert(out.deep_view() =~= before.push(all.last()));
        }
    }
    out
}

/// The first of `lines` that begins with `prefix`; the empty text when none
/// does.
pub open spec fn first_with_prefix(lines: Seq<Seq<char>>, prefix: Seq<char>) -> Seq<char>
    decreases lines.len(),
{
    if lines.len() == 0 {
        Seq::empty()
    } else if is_prefix(lines.first(), prefix) {
        lines.first()
    } else {
        first_with_prefix(lines.drop_first(), prefix)
    }
}

/// Finds the first of `lines` that begins with `prefix`.
pub fn find_with_prefix(lines: &Vec<String>, prefix: &str) -> (out: String)
    ensures
        out@ == first_with_prefix(lines.deep_view(), prefix@),
{
    let ghost all = lines.deep_view();
    let mut i: usize = 0;
    proof {
        assert(all.skip(0) =~= all);
    }
    while i < lines.len()
        invariant
            i <= lines.len(),
            all == lines.deep_view(),
            first_with_prefix(all, prefix@) == first_with_prefix(all.skip(i as int), prefix@),
        decreases lines.len() - i,
    {
        proof {
            assert(all.skip(i as int).first() == lines[i as int]@);
            assert(all.skip(i as int).drop_first() =~= all.skip(i + 1));
        }
        if starts_with_text(lines[i].as_str(), prefix) {
            return lines[i].clone();
        }
        i += 1;
    }
    String::new()
}

/// The first `count` of `texts`, or all of them if they are fewer.
pub open spec fn first_few(texts: Seq<Seq<char>>, count: nat) -> Seq<Seq<char>> {
    if texts.len() <= count {
        texts
    } else {
        texts.take(count as int)
    }
}

/// Copies the first `count` of `texts`.
pub fn take_first(texts: &Vec<String>, count: usize) -> (out: Vec<String>)
    ensures
        out.deep_view() == first_few(texts.deep_view(), count as nat),
{
    let end = if texts.len() <= count {
        texts.len()
    } else {
        count
    };
    let mut out: Vec<String> = Vec::new();
    let mut i: usize = 0;
    while i < end
        invariant
            i <= end <= texts.len(),
            out.len() == i,
            forall|j: int| 0 <= j < i ==> out[j]@ == texts[j]@,
        decreases end - i,
    {
        out.push(texts[i].clone());
        i += 1;
    }
    proof {
        assert(out.deep_view() =~= first_few(texts.deep_view(), count as nat));
    }
    out
}

} // verus!
