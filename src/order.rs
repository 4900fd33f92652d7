//! The orders in which a record's headers and a topic's consumer groups are
//! listed, comparing text character by character as `str`'s ordering does.
use vstd::prelude::*;
use vstd::relations::{sorted_by, total_ordering};
use crate::action::{ConsumerGroupDetail, ConsumerGroupState, Header};

verus! {

broadcast use vstd::seq_lib::group_to_multiset_ensures;

/// `a` comes before `b` or equals it, comparing character codes from the left; a
/// proper prefix comes first.
pub open spec fn chars_le(a: Seq<char>, b: Seq<char>) -> bool
    decreases a.len(),
{
    if a.len() == 0 {
        true
    } else if b.len() == 0 {
        false
    } else if a[0] != b[0] {
        a[0] < b[0]
    } else {
        chars_le(a.drop_first(), b.drop_first())
    }
}

/// Headers as (key, value) ordered by key, then by value.
pub open spec fn header_le(a: (Seq<char>, Seq<char>), b: (Seq<char>, Seq<char>)) -> bool {
    if a.0 == b.0 {
        chars_le(a.1, b.1)
    } else {
        chars_le(a.0, b.0)
    }
}

pub open spec fn header_views(headers: Seq<Header>) -> Seq<(Seq<char>, Seq<char>)> {
    headers.map_values(|h: Header| (h.key@, h.value@))
}

/// The order of headers, as a relation.
pub open spec fn header_order() -> spec_fn((Seq<char>, Seq<char>), (Seq<char>, Seq<char>)) -> bool {
    |a: (Seq<char>, Seq<char>), b: (Seq<char>, Seq<char>)| header_le(a, b)
}

/// The headers' (key, value) pairs in ascending order.
pub open spec fn sorted_header_views(headers: Seq<Header>) -> Seq<(Seq<char>, Seq<char>)> {
    header_views(headers).sort_by(header_order())
}

proof fn lemma_chars_le_total(a: Seq<char>, b: Seq<char>)
    ensures
        chars_le(a, a),
        chars_le(a, b) || chars_le(b, a),
        chars_le(a, b) && chars_le(b, a) ==> a == b,
    decreases a.len(),
{
    if a.len() > 0 && b.len() > 0 {
        lemma_chars_le_total(a.drop_first(), b.drop_first());
        if a[0] == b[0] && a.drop_first() == b.drop_first() {
            assert(a =~= seq![a[0]] + a.drop_first());
            assert(b =~= seq![b[0]] + b.drop_first());
        }
    }
    if a.len() > 0 {
        lemma_chars_le_total(a.drop_first(), a.drop_first());
    }
    if a.len() == 0 && b.len() == 0 {
        assert(a =~= b);
    }
}

proof fn lemma_chars_le_transitive(a: Seq<char>, b: Seq<char>, c: Seq<char>)
    requires
        chars_le(a, b),
        chars_le(b, c),
    ensures
        chars_le(a, c),
    decreases a.len(),
{
    if a.len() > 0 && b.len() > 0 && c.len() > 0 && a[0] == b[0] && b[0] == c[0] {
        lemma_chars_le_transitive(a.drop_first(), b.drop_first(), c.drop_first());
    }
}

pub proof fn lemma_header_le_total()
    ensures
        total_ordering(header_order()),
{
    let leq = header_order();
    assert forall|a: (Seq<char>, Seq<char>)| #[trigger] leq(a, a) by {
        lemma_chars_le_total(a.1, a.1);
    }
    assert forall|a: (Seq<char>, Seq<char>), b: (Seq<char>, Seq<char>)|
        #[trigger] leq(a, b) && #[trigger] leq(b, a) implies a == b by {
        lemma_chars_le_total(a.0, b.0);
        lemma_chars_le_total(a.1, b.1);
    }
    assert forall|a: (Seq<char>, Seq<char>), b: (Seq<char>, Seq<char>)|
        #[trigger] leq(a, b) || #[trigger] leq(b, a) by {
        lemma_chars_le_total(a.0, b.0);
        lemma_chars_le_total(a.1, b.1);
    }
    assert forall|a: (Seq<char>, Seq<char>), b: (Seq<char>, Seq<char>), c: (Seq<char>, Seq<char>)|
        #[trigger] leq(a, b) && #[trigger] leq(b, c) implies leq(a, c) by {
        lemma_chars_le_total(a.0, b.0);
        lemma_chars_le_total(b.0, c.0);
        lemma_chars_le_total(a.0, c.0);
        if a.0 == b.0 && b.0 == c.0 {
            lemma_chars_le_transitive(a.1, b.1, c.1);
        } else {
            lemma_chars_le_transitive(a.0, b.0, c.0);
        }
    }
    assert(vstd::relations::reflexive(leq));
    assert(vstd::relations::antisymmetric(leq));
    assert(vstd::relations::transitive(leq));
    assert(vstd::relations::strongly_connected(leq));
}

fn str_le(a: &str, b: &str) -> (r: bool)
    ensures
        r == chars_le(a@, b@),
{
    let n = a.unicode_len();
    let m = b.unicode_len();
    let mut i: usize = 0;
    assert(a@.skip(0) =~= a@ && b@.skip(0) =~= b@);
    while i < n && i < m
        invariant
            n == a@.len(),
            m == b@.len(),
            i <= n,
            i <= m,
            chars_le(a@, b@) == chars_le(a@.skip(i as int), b@.skip(i as int)),
        decreases n - i,
    {
        let x = a.get_char(i);
        let y = b.get_char(i);
        assert(a@.skip(i as int)[0] == x && b@.skip(i as int)[0] == y);
        if x != y {
            return x < y;
        }
        assert(a@.skip(i as int).drop_first() =~= a@.skip(i as int + 1));
        assert(b@.skip(i as int).drop_first() =~= b@.skip(i as int + 1));
        i = i + 1;
    }
    i == n
}

fn header_le_exec(a: &Header, b: &Header) -> (r: bool)
    ensures
        r == header_le((a.key@, a.value@), (b.key@, b.value@)),
{
    if a.key == b.key {
        str_le(a.value.as_str(), b.value.as_str())
    } else {
        str_le(a.key.as_str(), b.key.as_str())
    }
}

proof fn lemma_views_insert(s: Seq<Header>, p: int, h: Header)
    requires
        0 <= p <= s.len(),
    ensures
        header_views(s.insert(p, h)) == header_views(s).take(p).push((h.key@, h.value@)) + header_views(
            s,
        ).skip(p),
{
    assert(header_views(s.insert(p, h)) =~= header_views(s).take(p).push((h.key@, h.value@))
        + header_views(s).skip(p));
}

/// The headers in ascending order of key, then value.
pub fn sorted_headers(headers: &Vec<Header>) -> (r: Vec<Header>)
    ensures
        header_views(r@) == sorted_header_views(headers@),
{
    proof {
        lemma_header_le_total();
    }
    let mut out: Vec<Header> = Vec::new();
    let mut i: usize = 0;
    assert(header_views(out@) =~= header_views(headers@.take(0)));
    while i < headers.len()
        invariant
            i <= headers@.len(),
            total_ordering(header_order()),
            sorted_by(header_views(out@), header_order()),
            header_views(out@).to_multiset() == header_views(headers@.take(i as int)).to_multiset(),
        decreases headers@.len() - i,
    {
        let h = headers[i].duplicate();
        let ghost hv = (h.key@, h.value@);
        let ghost old_views = header_views(out@);
        let mut p: usize = 0;
        let mut stop = false;
        while !stop && p < out.len()
            invariant
                p <= out@.len(),
                hv == (h.key@, h.value@),
                old_views == header_views(out@),
                forall|k: int| 0 <= k < p ==> #[trigger] header_order()(old_views[k], hv),
                stop ==> p < out@.len() && !header_order()(old_views[p as int], hv),
            decreases out@.len() - p + (if stop { 0int } else { 1int }),
        {
            assert(old_views[p as int] == (out@[p as int].key@, out@[p as int].value@));
            let le = header_le_exec(&out[p], &h);
            assert(le == header_order()(old_views[p as int], hv));
            if le {
                p = p + 1;
            } else {
                stop = true;
            }
        }
        let ghost before = out@;
        let ghost hg = h;
        out.insert(p, h);
        proof {
            let nv = header_views(out@);
            let left = old_views.take(p as int);
            let right = old_views.skip(p as int);
            lemma_views_insert(before, p as int, hg);
            assert(nv == left.push(hv) + right);
            assert(old_views =~= left + right);
            vstd::seq_lib::lemma_multiset_commutative(left, right);
            vstd::seq_lib::lemma_multiset_commutative(left.push(hv), right);
            assert(left.push(hv).to_multiset() =~= left.to_multiset().insert(hv));
            assert(header_views(headers@.take(i as int + 1)) =~= header_views(headers@.take(i as int)).push(hv));
            assert(header_views(headers@.take(i as int)).push(hv).to_multiset() =~= header_views(headers@.take(i as int)).to_multiset().insert(hv));
            assert(nv.to_multiset() =~= old_views.to_multiset().insert(hv));
            assert forall|x: int, y: int| 0 <= x < y < nv.len() implies #[trigger] header_order()(nv[x], nv[y]) by {
                if y < p {
                    assert(nv[x] == old_views[x] && nv[y] == old_views[y]);
                } else if y == p {
                    assert(nv[x] == old_views[x]);
                } else if x < p {
                    assert(nv[x] == old_views[x] && nv[y] == old_views[y - 1]);
                    assert(header_order()(old_views[x], hv));
                } else if x == p {
                    assert(nv[y] == old_views[y - 1]);
                    assert(!header_order()(old_views[p as int], hv));
                    assert(header_order()(hv, old_views[p as int]));
                    if p < y - 1 {
                        assert(header_order()(old_views[p as int], old_views[y - 1]));
                    }
                } else {
                    assert(nv[x] == old_views[x - 1] && nv[y] == old_views[y - 1]);
                }
            }
        }
        i = i + 1;
    }
    proof {
        assert(headers@.take(i as int) =~= headers@);
        header_views(headers@).lemma_sort_by_ensures(header_order());
        vstd::seq_lib::lemma_sorted_unique(header_views(out@), sorted_header_views(headers@), header_order());
    }
    out
}


/// A consumer group as it is ordered: name, state's rank, members.
pub open spec fn group_view(g: ConsumerGroupDetail) -> (Seq<char>, nat, nat) {
    (g.name@, state_rank(g.state), g.members as nat)
}

pub open spec fn state_rank(s: ConsumerGroupState) -> nat {
    match s {
        ConsumerGroupState::Unknown => 0,
        ConsumerGroupState::Empty => 1,
        ConsumerGroupState::Dead => 2,
        ConsumerGroupState::Stable => 3,
        ConsumerGroupState::PreparingRebalance => 4,
        ConsumerGroupState::CompletingRebalance => 5,
        ConsumerGroupState::Rebalancing => 6,
        ConsumerGroupState::UnknownRebalance => 7,
    }
}

/// Consumer groups ordered by name; groups of one name by state, then members.
pub open spec fn group_le(a: (Seq<char>, nat, nat), b: (Seq<char>, nat, nat)) -> bool {
    if a.0 != b.0 {
        chars_le(a.0, b.0)
    } else if a.1 != b.1 {
        a.1 < b.1
    } else {
        a.2 <= b.2
    }
}

pub open spec fn group_order() -> spec_fn((Seq<char>, nat, nat), (Seq<char>, nat, nat)) -> bool {
    |a: (Seq<char>, nat, nat), b: (Seq<char>, nat, nat)| group_le(a, b)
}

pub open spec fn group_views(groups: Seq<ConsumerGroupDetail>) -> Seq<(Seq<char>, nat, nat)> {
    groups.map_values(|g: ConsumerGroupDetail| group_view(g))
}

/// A topic's consumer groups in the order they are listed.
pub open spec fn sorted_group_views(groups: Seq<ConsumerGroupDetail>) -> Seq<(Seq<char>, nat, nat)> {
    group_views(groups).sort_by(group_order())
}

pub proof fn lemma_group_le_total()
    ensures
        total_ordering(group_order()),
{
    let leq = group_order();
    assert forall|a: (Seq<char>, nat, nat)| #[trigger] leq(a, a) by {
        lemma_chars_le_total(a.0, a.0);
    }
    assert forall|a: (Seq<char>, nat, nat), b: (Seq<char>, nat, nat)|
        #[trigger] leq(a, b) && #[trigger] leq(b, a) implies a == b by {
        lemma_chars_le_total(a.0, b.0);
    }
    assert forall|a: (Seq<char>, nat, nat), b: (Seq<char>, nat, nat)|
        #[trigger] leq(a, b) || #[trigger] leq(b, a) by {
        lemma_chars_le_total(a.0, b.0);
    }
    assert forall|a: (Seq<char>, nat, nat), b: (Seq<char>, nat, nat), c: (Seq<char>, nat, nat)|
        #[trigger] leq(a, b) && #[trigger] leq(b, c) implies leq(a, c) by {
        lemma_chars_le_total(a.0, b.0);
        lemma_chars_le_total(b.0, c.0);
        lemma_chars_le_total(a.0, c.0);
        if a.0 != b.0 && b.0 != c.0 {
            lemma_chars_le_transitive(a.0, b.0, c.0);
        }
    }
    assert(vstd::relations::reflexive(leq));
    assert(vstd::relations::antisymmetric(leq));
    assert(vstd::relations::transitive(leq));
    assert(vstd::relations::strongly_connected(leq));
}

fn state_rank_exec(s: ConsumerGroupState) -> (r: u8)
    ensures
        r as nat == state_rank(s),
{
    match s {
        ConsumerGroupState::Unknown => 0,
        ConsumerGroupState::Empty => 1,
        ConsumerGroupState::Dead => 2,
        ConsumerGroupState::Stable => 3,
        ConsumerGroupState::PreparingRebalance => 4,
        ConsumerGroupState::CompletingRebalance => 5,
        ConsumerGroupState::Rebalancing => 6,
        ConsumerGroupState::UnknownRebalance => 7,
    }
}

fn group_le_exec(a: &ConsumerGroupDetail, b: &ConsumerGroupDetail) -> (r: bool)
    ensures
        r == group_le(group_view(*a), group_view(*b)),
{
    if a.name != b.name {
        str_le(a.name.as_str(), b.name.as_str())
    } else {
        let x = state_rank_exec(a.state);
        let y = state_rank_exec(b.state);
        if x != y {
            x < y
        } else {
            a.members <= b.members
        }
    }
}

proof fn lemma_group_views_insert(s: Seq<ConsumerGroupDetail>, p: int, h: ConsumerGroupDetail)
    requires
        0 <= p <= s.len(),
    ensures
        group_views(s.insert(p, h)) == group_views(s).take(p).push(group_view(h)) + group_views(
            s,
        ).skip(p),
{
    assert(group_views(s.insert(p, h)) =~= group_views(s).take(p).push(group_view(h))
        + group_views(s).skip(p));
}

/// Consumer groups in ascending order of name, then state, then members.
pub fn sorted_groups(groups: &Vec<ConsumerGroupDetail>) -> (r: Vec<ConsumerGroupDetail>)
    ensures
        group_views(r@) == sorted_group_views(groups@),
{
    proof {
        lemma_group_le_total();
    }
    let mut out: Vec<ConsumerGroupDetail> = Vec::new();
    let mut i: usize = 0;
    assert(group_views(out@) =~= group_views(groups@.take(0)));
    while i < groups.len()
        invariant
            i <= groups@.len(),
            total_ordering(group_order()),
            sorted_by(group_views(out@), group_order()),
            group_views(out@).to_multiset() == group_views(groups@.take(i as int)).to_multiset(),
        decreases groups@.len() - i,
    {
        let h = groups[i].duplicate();
        let ghost hv = group_view(h);
        let ghost old_views = group_views(out@);
        let mut p: usize = 0;
        let mut stop = false;
        while !stop && p < out.len()
            invariant
                p <= out@.len(),
                hv == group_view(h),
                old_views == group_views(out@),
                forall|k: int| 0 <= k < p ==> #[trigger] group_order()(old_views[k], hv),
                stop ==> p < out@.len() && !group_order()(old_views[p as int], hv),
            decreases out@.len() - p + (if stop { 0int } else { 1int }),
        {
            assert(old_views[p as int] == group_view(out@[p as int]));
            let le = group_le_exec(&out[p], &h);
            assert(le == group_order()(old_views[p as int], hv));
            if le {
                p = p + 1;
            } else {
                stop = true;
            }
        }
        let ghost before = out@;
        let ghost hg = h;
        out.insert(p, h);
        proof {
            let nv = group_views(out@);
            let left = old_views.take(p as int);
            let right = old_views.skip(p as int);
            lemma_group_views_insert(before, p as int, hg);
            assert(nv == left.push(hv) + right);
            assert(old_views =~= left + right);
            vstd::seq_lib::lemma_multiset_commutative(left, right);
            vstd::seq_lib::lemma_multiset_commutative(left.push(hv), right);
            assert(left.push(hv).to_multiset() =~= left.to_multiset().insert(hv));
            assert(group_views(groups@.take(i as int + 1)) =~= group_views(groups@.take(i as int)).push(hv));
            assert(group_views(groups@.take(i as int)).push(hv).to_multiset() =~= group_views(groups@.take(i as int)).to_multiset().insert(hv));
            assert(nv.to_multiset() =~= old_views.to_multiset().insert(hv));
            assert forall|x: int, y: int| 0 <= x < y < nv.len() implies #[trigger] group_order()(nv[x], nv[y]) by {
                if y < p {
                    assert(nv[x] == old_views[x] && nv[y] == old_views[y]);
                } else if y == p {
                    assert(nv[x] == old_views[x]);
                } else if x < p {
                    assert(nv[x] == old_views[x] && nv[y] == old_views[y - 1]);
                    assert(group_order()(old_views[x], hv));
                } else if x == p {
                    assert(nv[y] == old_views[y - 1]);
                    assert(!group_order()(old_views[p as int], hv));
                    assert(group_order()(hv, old_views[p as int]));
                    if p < y - 1 {
                        assert(group_order()(old_views[p as int], old_views[y - 1]));
                    }
                } else {
                    assert(nv[x] == old_views[x - 1] && nv[y] == old_views[y - 1]);
                }
            }
        }
        i = i + 1;
    }
    proof {
        assert(groups@.take(i as int) =~= groups@);
        group_views(groups@).lemma_sort_by_ensures(group_order());
        vstd::seq_lib::lemma_sorted_unique(group_views(out@), sorted_group_views(groups@), group_order());
    }
    out
}

} // verus!
