//! The workspace renderer: turn the windows of one workspace into its
//! label.
//!
//! Each window contributes the icon the resolver picks for it; empty
//! icons are dropped, the rest are wrapped in directional overrides so
//! right-to-left glyphs cannot reorder the label, optionally
//! deduplicated, joined with the configured separator, and prefixed
//! with the workspace number.

use vstd::prelude::*;

use crate::config::{spec_fetch_icon, Config, ConfigView};
use crate::text::str_eq;

verus! {

/// The identifiers of one window: its exact identifier (app id or
/// window class) and its display title, either of which may be
/// missing.
pub type WindowNames = (Option<String>, Option<String>);

/// The mathematical content of a window's identifiers.
pub open spec fn spec_win_view(w: WindowNames) -> (Option<Seq<char>>, Option<Seq<char>>) {
    (
        match w.0 {
            Some(s) => Some(s@),
            None => None,
        },
        match w.1 {
            Some(s) => Some(s@),
            None => None,
        },
    )
}

/// The views of a window list.
pub open spec fn spec_win_views(ws: Seq<WindowNames>) -> Seq<
    (Option<Seq<char>>, Option<Seq<char>>),
> {
    ws.map_values(|w: WindowNames| spec_win_view(w))
}

/// Strict lexicographic order on texts, by code point, with a proper
/// prefix ordered first.
pub open spec fn spec_seq_lt(a: Seq<char>, b: Seq<char>) -> bool
    decreases a.len(),
{
    if b.len() == 0 {
        false
    } else if a.len() == 0 {
        true
    } else if a[0] == b[0] {
        spec_seq_lt(a.drop_first(), b.drop_first())
    } else {
        (a[0] as u32) < (b[0] as u32)
    }
}

/// Strict order on optional texts: an absent text comes first.
pub open spec fn spec_opt_lt(a: Option<Seq<char>>, b: Option<Seq<char>>) -> bool {
    match (a, b) {
        (None, None) => false,
        (None, Some(_)) => true,
        (Some(_), None) => false,
        (Some(x), Some(y)) => spec_seq_lt(x, y),
    }
}

/// Strict order on window identifier pairs: by exact identifier
/// first, then by title.
pub open spec fn spec_win_lt(
    a: (Option<Seq<char>>, Option<Seq<char>>),
    b: (Option<Seq<char>>, Option<Seq<char>>),
) -> bool {
    spec_opt_lt(a.0, b.0) || (a.0 == b.0 && spec_opt_lt(a.1, b.1))
}

/// Insert a window into an ordered duplicate-free list: before the
/// first larger element, dropped when already present.
pub open spec fn spec_insert_sorted(
    sorted: Seq<(Option<Seq<char>>, Option<Seq<char>>)>,
    x: (Option<Seq<char>>, Option<Seq<char>>),
) -> Seq<(Option<Seq<char>>, Option<Seq<char>>)>
    decreases sorted.len(),
{
    if sorted.len() == 0 {
        seq![x]
    } else if spec_win_lt(x, sorted[0]) {
        seq![x] + sorted
    } else if x == sorted[0] {
        sorted
    } else {
        seq![sorted[0]] + spec_insert_sorted(sorted.drop_first(), x)
    }
}

/// Fold a window list into an ordered duplicate-free list, starting
/// from an already-ordered accumulator.
pub open spec fn spec_sorted_dedup_from(
    acc: Seq<(Option<Seq<char>>, Option<Seq<char>>)>,
    input: Seq<(Option<Seq<char>>, Option<Seq<char>>)>,
) -> Seq<(Option<Seq<char>>, Option<Seq<char>>)>
    decreases input.len(),
{
    if input.len() == 0 {
        acc
    } else {
        spec_sorted_dedup_from(spec_insert_sorted(acc, input[0]), input.drop_first())
    }
}

/// The ordered duplicate-free version of a window list: what
/// collecting it through an ordered set yields.
pub open spec fn spec_sorted_dedup(
    input: Seq<(Option<Seq<char>>, Option<Seq<char>>)>,
) -> Seq<(Option<Seq<char>>, Option<Seq<char>>)> {
    spec_sorted_dedup_from(Seq::empty(), input)
}

/// An ordered window list: strictly ascending, so also free of
/// duplicates.
pub open spec fn spec_win_sorted(s: Seq<(Option<Seq<char>>, Option<Seq<char>>)>) -> bool {
    forall|i: int, j: int| 0 <= i < j < s.len() ==> spec_win_lt(s[i], s[j])
}

proof fn lemma_char_cast_injective(a: char, b: char)
    requires
        a != b,
    ensures
        (a as u32) != (b as u32),
{
}

proof fn lemma_seq_lt_connex(a: Seq<char>, b: Seq<char>)
    requires
        !spec_seq_lt(a, b),
        !spec_seq_lt(b, a),
    ensures
        a == b,
    decreases a.len(),
{
    if b.len() == 0 {
        assert(a.len() == 0);
        assert(a =~= b);
    } else if a.len() == 0 {
        assert(spec_seq_lt(a, b));
    } else if a[0] == b[0] {
        lemma_seq_lt_connex(a.drop_first(), b.drop_first());
        assert forall|i: int| 0 <= i < a.len() implies a[i] == b[i] by {
            if i > 0 {
                assert(a.drop_first()[i - 1] == b.drop_first()[i - 1]);
            }
        }
        assert(a =~= b);
    } else {
        lemma_char_cast_injective(a[0], b[0]);
    }
}

proof fn lemma_seq_lt_trans(a: Seq<char>, b: Seq<char>, c: Seq<char>)
    requires
        spec_seq_lt(a, b),
        spec_seq_lt(b, c),
    ensures
        spec_seq_lt(a, c),
    decreases a.len(),
{
    if c.len() == 0 {
        assert(!spec_seq_lt(b, c));
    } else if a.len() == 0 {
    } else {
        assert(b.len() > 0);
        if a[0] == b[0] && b[0] == c[0] {
            lemma_seq_lt_trans(a.drop_first(), b.drop_first(), c.drop_first());
        }
    }
}

proof fn lemma_opt_lt_connex(a: Option<Seq<char>>, b: Option<Seq<char>>)
    requires
        !spec_opt_lt(a, b),
        !spec_opt_lt(b, a),
    ensures
        a == b,
{
    match (a, b) {
        (Some(x), Some(y)) => {
            lemma_seq_lt_connex(x, y);
        },
        _ => {},
    }
}

proof fn lemma_opt_lt_trans(a: Option<Seq<char>>, b: Option<Seq<char>>, c: Option<Seq<char>>)
    requires
        spec_opt_lt(a, b),
        spec_opt_lt(b, c),
    ensures
        spec_opt_lt(a, c),
{
    match (a, b, c) {
        (Some(x), Some(y), Some(z)) => {
            lemma_seq_lt_trans(x, y, z);
        },
        _ => {},
    }
}

proof fn lemma_win_lt_connex(
    a: (Option<Seq<char>>, Option<Seq<char>>),
    b: (Option<Seq<char>>, Option<Seq<char>>),
)
    requires
        !spec_win_lt(a, b),
        !spec_win_lt(b, a),
    ensures
        a == b,
{
    lemma_opt_lt_connex(a.0, b.0);
    lemma_opt_lt_connex(a.1, b.1);
}

proof fn lemma_win_lt_trans(
    a: (Option<Seq<char>>, Option<Seq<char>>),
    b: (Option<Seq<char>>, Option<Seq<char>>),
    c: (Option<Seq<char>>, Option<Seq<char>>),
)
    requires
        spec_win_lt(a, b),
        spec_win_lt(b, c),
    ensures
        spec_win_lt(a, c),
{
    if spec_opt_lt(a.0, b.0) && spec_opt_lt(b.0, c.0) {
        lemma_opt_lt_trans(a.0, b.0, c.0);
    }
    if a.0 == b.0 && b.0 == c.0 && spec_opt_lt(a.1, b.1) && spec_opt_lt(b.1, c.1) {
        lemma_opt_lt_trans(a.1, b.1, c.1);
    }
}

proof fn lemma_insert_sorted_props(
    sorted: Seq<(Option<Seq<char>>, Option<Seq<char>>)>,
    x: (Option<Seq<char>>, Option<Seq<char>>),
)
    requires
        spec_win_sorted(sorted),
    ensures
        spec_win_sorted(spec_insert_sorted(sorted, x)),
        spec_insert_sorted(sorted, x).contains(x),
        forall|y: (Option<Seq<char>>, Option<Seq<char>>)|
            sorted.contains(y) ==> #[trigger] spec_insert_sorted(sorted, x).contains(y),
        forall|y: (Option<Seq<char>>, Option<Seq<char>>)|
            #[trigger] spec_insert_sorted(sorted, x).contains(y) ==> (sorted.contains(y) || y
                == x),
    decreases sorted.len(),
{
    let out = spec_insert_sorted(sorted, x);
    if sorted.len() == 0 {
        assert(out =~= seq![x]);
        assert(out.contains(x)) by {
            assert(out[0] == x);
        }
    } else if spec_win_lt(x, sorted[0]) {
        assert(out =~= seq![x] + sorted);
        assert forall|i: int, j: int| 0 <= i < j < out.len() implies spec_win_lt(
            out[i],
            out[j],
        ) by {
            if i == 0 {
                if j > 1 {
                    lemma_win_lt_trans(x, sorted[0], sorted[j - 1]);
                }
            }
        }
        assert(out.contains(x)) by {
            assert(out[0] == x);
        }
        assert forall|y: (Option<Seq<char>>, Option<Seq<char>>)| #[trigger] out.contains(
            y,
        ) implies (sorted.contains(y) || y == x) by {
            let k = choose|k: int| 0 <= k < out.len() && out[k] == y;
            if k > 0 {
                assert(sorted[k - 1] == y);
            }
        }
        assert forall|y: (Option<Seq<char>>, Option<Seq<char>>)| sorted.contains(
            y,
        ) implies #[trigger] out.contains(y) by {
            let k = choose|k: int| 0 <= k < sorted.len() && sorted[k] == y;
            assert(out[k + 1] == y);
        }
    } else if x == sorted[0] {
        assert(out.contains(x)) by {
            assert(out[0] == x);
        }
    } else {
        if !spec_win_lt(sorted[0], x) {
            lemma_win_lt_connex(x, sorted[0]);
        }
        assert(spec_win_lt(sorted[0], x));
        let tail = sorted.drop_first();
        assert(spec_win_sorted(tail)) by {
            assert forall|i: int, j: int| 0 <= i < j < tail.len() implies spec_win_lt(
                tail[i],
                tail[j],
            ) by {
                assert(tail[i] == sorted[i + 1]);
                assert(tail[j] == sorted[j + 1]);
            }
        }
        lemma_insert_sorted_props(tail, x);
        let rest = spec_insert_sorted(tail, x);
        assert(out =~= seq![sorted[0]] + rest);
        assert forall|i: int, j: int| 0 <= i < j < out.len() implies spec_win_lt(
            out[i],
            out[j],
        ) by {
            if i == 0 {
                assert(rest.contains(out[j])) by {
                    assert(rest[j - 1] == out[j]);
                }
                if out[j] == x {
                } else {
                    assert(tail.contains(out[j]));
                    let k = choose|k: int| 0 <= k < tail.len() && tail[k] == out[j];
                    assert(tail[k] == sorted[k + 1]);
                    assert(spec_win_lt(sorted[0], sorted[k + 1]));
                }
            } else {
                assert(rest[i - 1] == out[i]);
                assert(rest[j - 1] == out[j]);
            }
        }
        assert(out.contains(x)) by {
            assert(spec_insert_sorted(tail, x).contains(x));
            let r = choose|r: int| 0 <= r < rest.len() && rest[r] == x;
            assert(out[r + 1] == x);
        }
        assert forall|y: (Option<Seq<char>>, Option<Seq<char>>)| #[trigger] out.contains(
            y,
        ) implies (sorted.contains(y) || y == x) by {
            let k = choose|k: int| 0 <= k < out.len() && out[k] == y;
            if k == 0 {
                assert(sorted[0] == y);
            } else {
                assert(rest[k - 1] == y);
                assert(spec_insert_sorted(tail, x).contains(y));
                if y != x {
                    assert(tail.contains(y));
                    let t = choose|t: int| 0 <= t < tail.len() && tail[t] == y;
                    assert(sorted[t + 1] == y);
                }
            }
        }
        assert forall|y: (Option<Seq<char>>, Option<Seq<char>>)| sorted.contains(
            y,
        ) implies #[trigger] out.contains(y) by {
            if y == sorted[0] {
                assert(out[0] == y);
            } else {
                let k = choose|k: int| 0 <= k < sorted.len() && sorted[k] == y;
                assert(tail[k - 1] == y);
                assert(tail.contains(y));
                assert(spec_insert_sorted(tail, x).contains(y));
                let r = choose|r: int| 0 <= r < rest.len() && rest[r] == y;
                assert(out[r + 1] == y);
            }
        }
    }
}

proof fn lemma_sorted_dedup_from_props(
    acc: Seq<(Option<Seq<char>>, Option<Seq<char>>)>,
    input: Seq<(Option<Seq<char>>, Option<Seq<char>>)>,
)
    requires
        spec_win_sorted(acc),
    ensures
        spec_win_sorted(spec_sorted_dedup_from(acc, input)),
        forall|y: (Option<Seq<char>>, Option<Seq<char>>)|
            #[trigger] spec_sorted_dedup_from(acc, input).contains(y) ==> (acc.contains(y)
                || input.contains(y)),
        forall|y: (Option<Seq<char>>, Option<Seq<char>>)|
            acc.contains(y) ==> #[trigger] spec_sorted_dedup_from(acc, input).contains(y),
        forall|y: (Option<Seq<char>>, Option<Seq<char>>)|
            input.contains(y) ==> #[trigger] spec_sorted_dedup_from(acc, input).contains(y),
    decreases input.len(),
{
    if input.len() > 0 {
        let first = input[0];
        lemma_insert_sorted_props(acc, first);
        lemma_sorted_dedup_from_props(spec_insert_sorted(acc, first), input.drop_first());
        let out = spec_sorted_dedup_from(acc, input);
        assert forall|y: (Option<Seq<char>>, Option<Seq<char>>)| #[trigger] out.contains(
            y,
        ) implies (acc.contains(y) || input.contains(y)) by {
            assert(spec_sorted_dedup_from(spec_insert_sorted(acc, first), input.drop_first())
                .contains(y));
            if spec_insert_sorted(acc, first).contains(y) {
                if y == first {
                    assert(input.contains(y)) by {
                        assert(input[0] == y);
                    }
                }
            } else {
                assert(input.drop_first().contains(y));
                let k = choose|k: int|
                    0 <= k < input.drop_first().len() && input.drop_first()[k] == y;
                assert(input[k + 1] == y);
                assert(input.contains(y));
            }
        }
        assert forall|y: (Option<Seq<char>>, Option<Seq<char>>)| acc.contains(
            y,
        ) implies #[trigger] out.contains(y) by {
            assert(spec_insert_sorted(acc, first).contains(y));
            assert(spec_sorted_dedup_from(spec_insert_sorted(acc, first), input.drop_first())
                .contains(y));
        }
        assert forall|y: (Option<Seq<char>>, Option<Seq<char>>)| input.contains(
            y,
        ) implies #[trigger] out.contains(y) by {
            if y == first {
                assert(spec_insert_sorted(acc, first).contains(first));
            } else {
                let k = choose|k: int| 0 <= k < input.len() && input[k] == y;
                assert(input.drop_first()[k - 1] == y);
                assert(input.drop_first().contains(y));
            }
            assert(spec_sorted_dedup_from(spec_insert_sorted(acc, first), input.drop_first())
                .contains(y));
        }
    }
}

/// Collecting a window list through the ordered set yields an ordered,
/// duplicate-free list that holds exactly the windows of the input.
pub proof fn lemma_sorted_dedup_is_ordered_set(
    input: Seq<(Option<Seq<char>>, Option<Seq<char>>)>,
)
    ensures
        spec_win_sorted(spec_sorted_dedup(input)),
        forall|y: (Option<Seq<char>>, Option<Seq<char>>)|
            #[trigger] spec_sorted_dedup(input).contains(y) <==> input.contains(y),
{
    lemma_sorted_dedup_from_props(Seq::empty(), input);
    assert forall|y: (Option<Seq<char>>, Option<Seq<char>>)|
        #[trigger] spec_sorted_dedup(input).contains(y) <==> input.contains(y) by {
        if spec_sorted_dedup(input).contains(y) {
            assert(!Seq::<(Option<Seq<char>>, Option<Seq<char>>)>::empty().contains(y));
        }
        if input.contains(y) {
            assert(spec_sorted_dedup_from(
                Seq::<(Option<Seq<char>>, Option<Seq<char>>)>::empty(),
                input,
            ).contains(y));
        }
    }
}

/// Compare two texts, as [`spec_seq_lt`] says.
fn str_lt(a: &str, b: &str) -> (r: bool)
    ensures
        r == spec_seq_lt(a@, b@),
{
    let alen = a.unicode_len();
    let blen = b.unicode_len();
    let mut i: usize = 0;
    proof {
        assert(a@.skip(0) =~= a@);
        assert(b@.skip(0) =~= b@);
    }
    loop
        invariant
            i <= alen,
            i <= blen,
            alen == a@.len(),
            blen == b@.len(),
            spec_seq_lt(a@, b@) == spec_seq_lt(a@.skip(i as int), b@.skip(i as int)),
        decreases alen - i,
    {
        if i >= blen {
            return false;
        }
        if i >= alen {
            return true;
        }
        let ca = a.get_char(i);
        let cb = b.get_char(i);
        proof {
            assert(a@.skip(i as int)[0] == a@[i as int]);
            assert(b@.skip(i as int)[0] == b@[i as int]);
            assert(a@.skip(i as int).drop_first() =~= a@.skip(i as int + 1));
            assert(b@.skip(i as int).drop_first() =~= b@.skip(i as int + 1));
        }
        if ca == cb {
            i = i + 1;
        } else {
            return (ca as u32) < (cb as u32);
        }
    }
}

/// Compare two optional texts, as [`spec_opt_lt`] says.
fn opt_str_lt(a: &Option<String>, b: &Option<String>) -> (r: bool)
    ensures
        r == spec_opt_lt(
            (match a {
                Some(s) => Some(s@),
                None => None,
            }),
            (match b {
                Some(s) => Some(s@),
                None => None,
            }),
        ),
{
    match (a, b) {
        (None, None) => false,
        (None, Some(_)) => true,
        (Some(_), None) => false,
        (Some(x), Some(y)) => str_lt(x.as_str(), y.as_str()),
    }
}

/// Compare two optional texts for equality.
fn opt_str_eq(a: &Option<String>, b: &Option<String>) -> (r: bool)
    ensures
        r == ((match a {
            Some(s) => Some(s@),
            None => None,
        }) == (match b {
            Some(s) => Some(s@),
            None => None,
        })),
{
    match (a, b) {
        (None, None) => true,
        (None, Some(_)) => false,
        (Some(_), None) => false,
        (Some(x), Some(y)) => str_eq(x.as_str(), y.as_str()),
    }
}

/// Compare two windows, as [`spec_win_lt`] says.
fn win_lt(a: &WindowNames, b: &WindowNames) -> (r: bool)
    ensures
        r == spec_win_lt(spec_win_view(*a), spec_win_view(*b)),
{
    if opt_str_lt(&a.0, &b.0) {
        true
    } else if opt_str_eq(&a.0, &b.0) {
        opt_str_lt(&a.1, &b.1)
    } else {
        false
    }
}

/// Compare two windows for equality at text level.
fn win_eq(a: &WindowNames, b: &WindowNames) -> (r: bool)
    ensures
        r == (spec_win_view(*a) == spec_win_view(*b)),
{
    opt_str_eq(&a.0, &b.0) && opt_str_eq(&a.1, &b.1)
}

/// Insert a window into an ordered duplicate-free list, as
/// [`spec_insert_sorted`] says.
#[verifier::loop_isolation(false)]
#[verifier::rlimit(30)]
fn insert_sorted(acc: &mut Vec<WindowNames>, x: WindowNames)
    ensures
        spec_win_views(final(acc)@) == spec_insert_sorted(
            spec_win_views(old(acc)@),
            spec_win_view(x),
        ),
{
    let ghost views = spec_win_views(acc@);
    let ghost xv = spec_win_view(x);
    let n = acc.len();
    let mut j: usize = 0;
    proof {
        assert(views.skip(0) =~= views);
        assert(views.take(0) =~= Seq::<(Option<Seq<char>>, Option<Seq<char>>)>::empty());
    }
    while j < n
        invariant
            j <= n,
            n == acc.len(),
            views == spec_win_views(acc@),
            views.len() == n,
            xv == spec_win_view(x),
            spec_insert_sorted(views, xv) == views.take(j as int) + spec_insert_sorted(
                views.skip(j as int),
                xv,
            ),
        decreases n - j,
    {
        proof {
            assert(views.skip(j as int)[0] == views[j as int]);
            assert(views.skip(j as int).drop_first() =~= views.skip(j as int + 1));
            assert(views.take(j as int + 1) =~= views.take(j as int) + seq![views[j as int]]);
        }
        if win_lt(&x, &acc[j]) {
            acc.insert(j, x);
            proof {
                assert(spec_win_views(acc@) =~= views.take(j as int) + (seq![xv] + views.skip(
                    j as int,
                )));
                assert(views.take(j as int) + (seq![xv] + views.skip(j as int)) =~= views.take(
                    j as int,
                ) + seq![xv] + views.skip(j as int));
            }
            return ;
        } else if win_eq(&x, &acc[j]) {
            proof {
                assert(views.take(j as int) + views.skip(j as int) =~= views);
            }
            return ;
        } else {
            proof {
                assert(views.take(j as int) + (seq![views[j as int]] + spec_insert_sorted(
                    views.skip(j as int + 1),
                    xv,
                )) =~= views.take(j as int + 1) + spec_insert_sorted(
                    views.skip(j as int + 1),
                    xv,
                ));
            }
            j = j + 1;
        }
    }
    proof {
        assert(views.skip(n as int) =~= Seq::<(Option<Seq<char>>, Option<Seq<char>>)>::empty());
    }
    acc.push(x);
    proof {
        assert(spec_win_views(acc@) =~= views.take(n as int) + seq![xv]);
    }
}

/// Collect a window list into an ordered duplicate-free list, as
/// [`spec_sorted_dedup`] says.
#[verifier::loop_isolation(false)]
fn sorted_dedup(input: Vec<WindowNames>) -> (out: Vec<WindowNames>)
    ensures
        spec_win_views(out@) == spec_sorted_dedup(spec_win_views(input@)),
{
    let ghost inviews = spec_win_views(input@);
    let mut acc: Vec<WindowNames> = Vec::new();
    let n = input.len();
    proof {
        assert(inviews.skip(0) =~= inviews);
        assert(spec_win_views(acc@) =~= Seq::<(Option<Seq<char>>, Option<Seq<char>>)>::empty());
    }
    let mut i: usize = 0;
    while i < n
        invariant
            i <= n,
            n == input.len(),
            inviews == spec_win_views(input@),
            inviews.len() == n,
            spec_sorted_dedup_from(spec_win_views(acc@), inviews.skip(i as int))
                == spec_sorted_dedup(inviews),
        decreases n - i,
    {
        proof {
            assert(inviews.skip(i as int)[0] == inviews[i as int]);
            assert(inviews.skip(i as int).drop_first() =~= inviews.skip(i as int + 1));
        }
        let wi = &input[i];
        let w = (
            match &wi.0 {
                Some(s) => Some(s.clone()),
                None => None,
            },
            match &wi.1 {
                Some(s) => Some(s.clone()),
                None => None,
            },
        );
        proof {
            assert(spec_win_view(w) == inviews[i as int]);
        }
        insert_sorted(&mut acc, w);
        i = i + 1;
    }
    proof {
        assert(inviews.skip(n as int) =~= Seq::<(Option<Seq<char>>, Option<Seq<char>>)>::empty());
    }
    acc
}

/// The exact identifier handed to the resolver: the window's own
/// where it has one, the empty string where it has none.
pub open spec fn spec_exact_or_empty(e: Option<Seq<char>>) -> Seq<char> {
    match e {
        Some(s) => s,
        None => Seq::empty(),
    }
}

/// The icon resolved for one window.
pub open spec fn spec_icon_for(c: ConfigView, w: (Option<Seq<char>>, Option<Seq<char>>)) -> Seq<
    char,
> {
    spec_fetch_icon(c, spec_exact_or_empty(w.0), w.1)
}

/// An icon wrapped in directional overrides, so right-to-left glyphs
/// cannot reorder the rest of the label.
pub open spec fn spec_wrap(icon: Seq<char>) -> Seq<char> {
    seq!['\u{202d}'] + icon + seq!['\u{202c}']
}

/// The wrapped icons of a window list, in order, with windows whose
/// resolved icon is empty dropped.
pub open spec fn spec_icons_of(
    c: ConfigView,
    ws: Seq<(Option<Seq<char>>, Option<Seq<char>>)>,
) -> Seq<Seq<char>>
    decreases ws.len(),
{
    if ws.len() == 0 {
        Seq::empty()
    } else {
        let icon = spec_icon_for(c, ws[0]);
        let rest = spec_icons_of(c, ws.drop_first());
        if icon.len() == 0 {
            rest
        } else {
            seq![spec_wrap(icon)] + rest
        }
    }
}

/// A text list with runs of equal adjacent texts collapsed to one.
pub open spec fn spec_dedup_adjacent(s: Seq<Seq<char>>) -> Seq<Seq<char>>
    decreases s.len(),
{
    if s.len() == 0 {
        Seq::empty()
    } else if s.len() == 1 {
        s
    } else if s[0] == s[1] {
        spec_dedup_adjacent(s.drop_first())
    } else {
        seq![s[0]] + spec_dedup_adjacent(s.drop_first())
    }
}

/// The texts joined with a separator between each adjacent pair.
pub open spec fn spec_join(items: Seq<Seq<char>>, sep: Seq<char>) -> Seq<char>
    decreases items.len(),
{
    if items.len() == 0 {
        Seq::empty()
    } else if items.len() == 1 {
        items[0]
    } else {
        items[0] + sep + spec_join(items.drop_first(), sep)
    }
}

/// The separator in effect: the configured one, a single space where
/// none is configured.
pub open spec fn spec_sep_of(c: ConfigView) -> Seq<char> {
    match c.separator {
        Some(s) => s,
        None => " "@,
    }
}

/// The digit character of one decimal digit.
pub open spec fn spec_digit_char(d: int) -> char {
    if d == 0 {
        '0'
    } else if d == 1 {
        '1'
    } else if d == 2 {
        '2'
    } else if d == 3 {
        '3'
    } else if d == 4 {
        '4'
    } else if d == 5 {
        '5'
    } else if d == 6 {
        '6'
    } else if d == 7 {
        '7'
    } else if d == 8 {
        '8'
    } else {
        '9'
    }
}

/// The decimal digits of a number, most significant first.
pub open spec fn spec_nat_digits(n: nat) -> Seq<char>
    decreases n,
{
    if n < 10 {
        seq![spec_digit_char(n as int)]
    } else {
        spec_nat_digits(n / 10) + seq![spec_digit_char((n % 10) as int)]
    }
}

/// The decimal rendering of an integer, with a leading minus sign
/// when it is negative.
pub open spec fn spec_int_text(n: int) -> Seq<char> {
    if n < 0 {
        seq!['-'] + spec_nat_digits((-n) as nat)
    } else {
        spec_nat_digits(n as nat)
    }
}

/// One decimal digit as text.
fn digit_str(d: u64) -> (s: &'static str)
    requires
        d < 10,
    ensures
        s@ == seq![spec_digit_char(d as int)],
{
    proof {
        reveal_strlit("0");
        reveal_strlit("1");
        reveal_strlit("2");
        reveal_strlit("3");
        reveal_strlit("4");
        reveal_strlit("5");
        reveal_strlit("6");
        reveal_strlit("7");
        reveal_strlit("8");
        reveal_strlit("9");
    }
    let s = if d == 0 {
        "0"
    } else if d == 1 {
        "1"
    } else if d == 2 {
        "2"
    } else if d == 3 {
        "3"
    } else if d == 4 {
        "4"
    } else if d == 5 {
        "5"
    } else if d == 6 {
        "6"
    } else if d == 7 {
        "7"
    } else if d == 8 {
        "8"
    } else {
        "9"
    };
    proof {
        assert(s@ =~= seq![spec_digit_char(d as int)]);
    }
    s
}

/// A number as decimal text.
fn u64_text(n: u64) -> (s: String)
    ensures
        s@ == spec_nat_digits(n as nat),
    decreases n,
{
    if n < 10 {
        digit_str(n).to_owned()
    } else {
        let mut s = u64_text(n / 10);
        s.append(digit_str(n % 10));
        s
    }
}

/// A workspace number as decimal text, sign included.
pub fn i32_text(n: i32) -> (s: String)
    ensures
        s@ == spec_int_text(n as int),
{
    if n < 0 {
        let m = (-(n as i64)) as u64;
        let mut s = String::from_str("-");
        s.append(u64_text(m).as_str());
        proof {
            reveal_strlit("-");
            assert("-"@ =~= seq!['-']);
        }
        s
    } else {
        u64_text(n as u64)
    }
}

/// Wrap an icon in directional overrides.
fn wrap_icon(icon: &String) -> (r: String)
    ensures
        r@ == spec_wrap(icon@),
{
    let mut s = String::from_str("\u{202d}");
    s.append(icon.as_str());
    s.append("\u{202c}");
    proof {
        reveal_strlit("\u{202d}");
        reveal_strlit("\u{202c}");
        assert("\u{202d}"@ =~= seq!['\u{202d}']);
        assert("\u{202c}"@ =~= seq!['\u{202c}']);
    }
    s
}

/// The wrapped icons of a window list, as [`spec_icons_of`] says.
#[verifier::loop_isolation(false)]
fn icons_of(config: &Config, names: &Vec<WindowNames>) -> (icons: Vec<String>)
    ensures
        icons.deep_view() == spec_icons_of(config@, spec_win_views(names@)),
{
    let ghost c = config@;
    let ghost views = spec_win_views(names@);
    let mut icons: Vec<String> = Vec::new();
    let n = names.len();
    proof {
        assert(views.skip(0) =~= views);
        assert(icons.deep_view() =~= Seq::<Seq<char>>::empty());
    }
    let mut i: usize = 0;
    while i < n
        invariant
            i <= n,
            n == names.len(),
            views == spec_win_views(names@),
            views.len() == n,
            c == config@,
            spec_icons_of(c, views) == icons.deep_view() + spec_icons_of(
                c,
                views.skip(i as int),
            ),
        decreases n - i,
    {
        proof {
            assert(views.skip(i as int)[0] == views[i as int]);
            assert(views.skip(i as int).drop_first() =~= views.skip(i as int + 1));
        }
        let ghost before = icons.deep_view();
        let w = &names[i];
        let icon = match &w.0 {
            Some(e) => config.fetch_icon(e, w.1.as_ref()),
            None => {
                let empty = String::new();
                config.fetch_icon(&empty, w.1.as_ref())
            },
        };
        proof {
            assert(icon@ == spec_icon_for(c, views[i as int]));
        }
        if !icon.as_str().is_empty() {
            let wrapped = wrap_icon(&icon);
            icons.push(wrapped);
            proof {
                assert(icons.deep_view() =~= before + seq![spec_wrap(icon@)]);
                assert(before + (seq![spec_wrap(icon@)] + spec_icons_of(
                    c,
                    views.skip(i as int + 1),
                )) =~= (before + seq![spec_wrap(icon@)]) + spec_icons_of(
                    c,
                    views.skip(i as int + 1),
                ));
            }
        }
        i = i + 1;
    }
    proof {
        assert(views.skip(n as int) =~= Seq::<(Option<Seq<char>>, Option<Seq<char>>)>::empty());
        assert(icons.deep_view() + Seq::<Seq<char>>::empty() =~= icons.deep_view());
    }
    icons
}

/// Collapse runs of equal adjacent icons, as [`spec_dedup_adjacent`]
/// says.
#[verifier::loop_isolation(false)]
fn dedup_adjacent(icons: Vec<String>) -> (out: Vec<String>)
    ensures
        out.deep_view() == spec_dedup_adjacent(icons.deep_view()),
{
    let ghost views = icons.deep_view();
    let mut out: Vec<String> = Vec::new();
    let n = icons.len();
    proof {
        assert(views.skip(0) =~= views);
        assert(out.deep_view() =~= Seq::<Seq<char>>::empty());
    }
    let mut i: usize = 0;
    while i < n
        invariant
            i <= n,
            n == icons.len(),
            views == icons.deep_view(),
            views.len() == n,
            spec_dedup_adjacent(views) == out.deep_view() + spec_dedup_adjacent(
                views.skip(i as int),
            ),
        decreases n - i,
    {
        proof {
            assert(views.skip(i as int)[0] == views[i as int]);
            assert(views.skip(i as int).drop_first() =~= views.skip(i as int + 1));
            if i + 1 < n {
                assert(views.skip(i as int)[1] == views[i as int + 1]);
            }
        }
        let ghost before = out.deep_view();
        if i + 1 < n && str_eq(icons[i].as_str(), icons[i + 1].as_str()) {
            // the next icon repeats this one: keep the later copy
        } else {
            out.push(icons[i].clone());
            proof {
                assert(out.deep_view() =~= before + seq![views[i as int]]);
                assert(before + (seq![views[i as int]] + spec_dedup_adjacent(
                    views.skip(i as int + 1),
                )) =~= (before + seq![views[i as int]]) + spec_dedup_adjacent(
                    views.skip(i as int + 1),
                ));
                if i + 1 == n {
                    assert(views.skip(i as int) =~= seq![views[i as int]]);
                    assert(views.skip(i as int + 1) =~= Seq::<Seq<char>>::empty());
                }
            }
        }
        i = i + 1;
    }
    proof {
        assert(views.skip(n as int) =~= Seq::<Seq<char>>::empty());
        assert(out.deep_view() + Seq::<Seq<char>>::empty() =~= out.deep_view());
    }
    out
}

proof fn lemma_join_push(items: Seq<Seq<char>>, x: Seq<char>, sep: Seq<char>)
    ensures
        spec_join(items.push(x), sep) == (if items.len() == 0 {
            x
        } else {
            spec_join(items, sep) + sep + x
        }),
    decreases items.len(),
{
    if items.len() > 0 {
        lemma_join_push(items.drop_first(), x, sep);
        assert(items.push(x).drop_first() =~= items.drop_first().push(x));
        assert(items.push(x)[0] == items[0]);
        if items.len() == 1 {
            assert(items[0] + sep + x =~= spec_join(items, sep) + sep + x);
        } else {
            assert(items[0] + sep + (spec_join(items.drop_first(), sep) + sep + x) =~= (items[0]
                + sep + spec_join(items.drop_first(), sep)) + sep + x);
        }
    } else {
        assert(items.push(x).len() == 1);
        assert(items.push(x)[0] == x);
    }
}

/// Join icons with a separator, as [`spec_join`] says.
#[verifier::loop_isolation(false)]
fn join_with(items: &Vec<String>, sep: &str) -> (out: String)
    ensures
        out@ == spec_join(items.deep_view(), sep@),
{
    let ghost views = items.deep_view();
    let mut out = String::new();
    let n = items.len();
    proof {
        assert(views.take(0) =~= Seq::<Seq<char>>::empty());
    }
    let mut i: usize = 0;
    while i < n
        invariant
            i <= n,
            n == items.len(),
            views == items.deep_view(),
            views.len() == n,
            out@ == spec_join(views.take(i as int), sep@),
        decreases n - i,
    {
        proof {
            assert(views.take(i as int + 1) =~= views.take(i as int).push(views[i as int]));
            lemma_join_push(views.take(i as int), views[i as int], sep@);
        }
        if i > 0 {
            out.append(sep);
        }
        out.append(items[i].as_str());
        i = i + 1;
    }
    proof {
        assert(views.take(n as int) =~= views);
    }
    out
}

/// What the label of a workspace is: the wrapped icons of its windows
/// (optionally collected through an ordered set and deduplicated),
/// joined with the separator in effect; the workspace number alone
/// where no icon remains, and otherwise the number, a colon, the
/// joined icons and a trailing space.
pub open spec fn spec_workspace_label(
    c: ConfigView,
    windows: Seq<(Option<Seq<char>>, Option<Seq<char>>)>,
    index: int,
    deduplicate: bool,
) -> Seq<char> {
    let names = if deduplicate {
        spec_sorted_dedup(windows)
    } else {
        windows
    };
    let icons0 = spec_icons_of(c, names);
    let icons = if deduplicate {
        spec_dedup_adjacent(icons0)
    } else {
        icons0
    };
    let joined = spec_join(icons, spec_sep_of(c));
    if joined.len() > 0 {
        spec_int_text(index) + ": "@ + joined + " "@
    } else {
        spec_int_text(index)
    }
}

/// Compute the label of one workspace from its windows, its number,
/// and the rule set in effect, exactly as [`spec_workspace_label`]
/// says.
pub fn format_workspace_label(
    config: &Config,
    windows: Vec<WindowNames>,
    index: i32,
    deduplicate: bool,
) -> (label: String)
    ensures
        label@ == spec_workspace_label(config@, spec_win_views(windows@), index as int, deduplicate),
{
    let names = if deduplicate {
        sorted_dedup(windows)
    } else {
        windows
    };
    let icons0 = icons_of(config, &names);
    let icons = if deduplicate {
        dedup_adjacent(icons0)
    } else {
        icons0
    };
    let sep: &str = match &config.separator {
        Some(s) => s.as_str(),
        None => " ",
    };
    let joined = join_with(&icons, sep);
    if !joined.as_str().is_empty() {
        let mut out = i32_text(index);
        out.append(": ");
        out.append(joined.as_str());
        out.append(" ");
        out
    } else {
        i32_text(index)
    }
}

} // verus!
