//! Symbol subscription sets.
//!
//! A subscription request names, independently for each frame kind, the set
//! of symbols it covers. The session keeps one such value as the set of
//! currently acknowledged subscriptions and updates it when a subscribe or
//! unsubscribe handshake succeeds.

use vstd::prelude::*;

use crate::frame::FrameKind;

verus! {

/// The set of symbol views held by a vector of symbols.
pub open spec fn symbol_views(v: Seq<String>) -> Set<Seq<char>>
    decreases v.len(),
{
    if v.len() == 0 {
        Set::empty()
    } else {
        symbol_views(v.drop_last()).insert(v.last()@)
    }
}

/// A vector of symbols holds exactly the views of its elements.
pub proof fn lemma_symbol_views_membership(v: Seq<String>, x: Seq<char>)
    ensures
        symbol_views(v).contains(x) <==> (exists|i: int| 0 <= i < v.len() && v[i]@ == x),
    decreases v.len(),
{
    if v.len() > 0 {
        lemma_symbol_views_membership(v.drop_last(), x);
        if symbol_views(v).contains(x) {
            if x == v.last()@ {
                assert(v[v.len() - 1]@ == x);
            } else {
                let i = choose|i: int| 0 <= i < v.drop_last().len() && v.drop_last()[i]@ == x;
                assert(v[i]@ == x);
            }
        }
        if exists|i: int| 0 <= i < v.len() && v[i]@ == x {
            let i = choose|i: int| 0 <= i < v.len() && v[i]@ == x;
            if i < v.len() - 1 {
                assert(v.drop_last()[i]@ == x);
            }
        }
    }
}

/// Appending one symbol adds exactly its view to the set.
pub proof fn lemma_symbol_views_push(v: Seq<String>, s: String)
    ensures
        symbol_views(v.push(s)) == symbol_views(v).insert(s@),
{
    assert(v.push(s).drop_last() =~= v);
    assert(v.push(s).last() == s);
}

/// `post` selects, for every kind, the union of what `pre` and `req`
/// select: the result of acknowledging a subscribe request `req`.
pub open spec fn merged(pre: SubscriptionSet, req: SubscriptionSet, post: SubscriptionSet) -> bool {
    &&& post.bars_set() == pre.bars_set().union(req.bars_set())
    &&& post.quotes_set() == pre.quotes_set().union(req.quotes_set())
    &&& post.trades_set() == pre.trades_set().union(req.trades_set())
}

/// `post` selects, for every kind, what `pre` selects less what `req`
/// selects: the result of acknowledging an unsubscribe request `req`.
pub open spec fn subtracted(
    pre: SubscriptionSet,
    req: SubscriptionSet,
    post: SubscriptionSet,
) -> bool {
    &&& post.bars_set() == pre.bars_set().difference(req.bars_set())
    &&& post.quotes_set() == pre.quotes_set().difference(req.quotes_set())
    &&& post.trades_set() == pre.trades_set().difference(req.trades_set())
}

/// Two subscription sets selecting the same symbols for every kind.
pub open spec fn same_symbols(a: SubscriptionSet, b: SubscriptionSet) -> bool {
    &&& a.bars_set() == b.bars_set()
    &&& a.quotes_set() == b.quotes_set()
    &&& a.trades_set() == b.trades_set()
}

/// The symbols requested or acknowledged for each frame kind,
/// independently selectable per kind.
#[derive(Debug)]
pub struct SubscriptionSet {
    pub bars: Vec<String>,
    pub quotes: Vec<String>,
    pub trades: Vec<String>,
}

impl SubscriptionSet {
    /// The set of bar symbols, as a set of views.
    pub open spec fn bars_set(self) -> Set<Seq<char>> {
        symbol_views(self.bars@)
    }

    /// The set of quote symbols, as a set of views.
    pub open spec fn quotes_set(self) -> Set<Seq<char>> {
        symbol_views(self.quotes@)
    }

    /// The set of trade symbols, as a set of views.
    pub open spec fn trades_set(self) -> Set<Seq<char>> {
        symbol_views(self.trades@)
    }

    /// The symbols selected for one frame kind.
    pub open spec fn symbols_of(self, k: FrameKind) -> Set<Seq<char>> {
        match k {
            FrameKind::Bar => self.bars_set(),
            FrameKind::Quote => self.quotes_set(),
            FrameKind::Trade => self.trades_set(),
        }
    }

    /// A subscription set covering no symbols at all.
    pub fn empty() -> (s: Self)
        ensures
            s.bars_set() == Set::<Seq<char>>::empty(),
            s.quotes_set() == Set::<Seq<char>>::empty(),
            s.trades_set() == Set::<Seq<char>>::empty(),
    {
        SubscriptionSet { bars: Vec::new(), quotes: Vec::new(), trades: Vec::new() }
    }

    /// Adds every symbol of `other`, kind by kind. Used when a subscribe
    /// handshake is acknowledged.
    pub fn merge(&mut self, other: &SubscriptionSet)
        ensures
            final(self).bars_set() == old(self).bars_set().union(other.bars_set()),
            final(self).quotes_set() == old(self).quotes_set().union(other.quotes_set()),
            final(self).trades_set() == old(self).trades_set().union(other.trades_set()),
    {
        append_symbols(&mut self.bars, &other.bars);
        append_symbols(&mut self.quotes, &other.quotes);
        append_symbols(&mut self.trades, &other.trades);
    }

    /// Removes every symbol of `other`, kind by kind. Used when an
    /// unsubscribe handshake is acknowledged.
    pub fn subtract(&mut self, other: &SubscriptionSet)
        ensures
            final(self).bars_set() == old(self).bars_set().difference(other.bars_set()),
            final(self).quotes_set() == old(self).quotes_set().difference(other.quotes_set()),
            final(self).trades_set() == old(self).trades_set().difference(other.trades_set()),
    {
        retain_missing(&mut self.bars, &other.bars);
        retain_missing(&mut self.quotes, &other.quotes);
        retain_missing(&mut self.trades, &other.trades);
    }

    /// Whether one symbol is selected for one frame kind.
    pub fn covers(&self, k: FrameKind, symbol: &String) -> (r: bool)
        ensures
            r == self.symbols_of(k).contains(symbol@),
    {
        match k {
            FrameKind::Bar => vec_contains_symbol(&self.bars, symbol),
            FrameKind::Quote => vec_contains_symbol(&self.quotes, symbol),
            FrameKind::Trade => vec_contains_symbol(&self.trades, symbol),
        }
    }
}

impl Clone for SubscriptionSet {
    /// A clone selects the same symbols for every kind.
    fn clone(&self) -> (r: Self)
        ensures
            r.bars_set() == self.bars_set(),
            r.quotes_set() == self.quotes_set(),
            r.trades_set() == self.trades_set(),
    {
        SubscriptionSet {
            bars: clone_symbols(&self.bars),
            quotes: clone_symbols(&self.quotes),
            trades: clone_symbols(&self.trades),
        }
    }
}

/// Whether a vector of symbols holds one with the given view.
fn vec_contains_symbol(v: &Vec<String>, s: &String) -> (r: bool)
    ensures
        r == symbol_views(v@).contains(s@),
{
    let mut i: usize = 0;
    while i < v.len()
        invariant
            i <= v.len(),
            forall|j: int| 0 <= j < i ==> v@[j]@ != s@,
        decreases v.len() - i,
    {
        if v[i].eq(s) {
            proof {
                lemma_symbol_views_membership(v@, s@);
            }
            return true;
        }
        i += 1;
    }
    proof {
        lemma_symbol_views_membership(v@, s@);
    }
    false
}

/// Copies a vector of symbols, view for view.
fn clone_symbols(v: &Vec<String>) -> (r: Vec<String>)
    ensures
        symbol_views(r@) == symbol_views(v@),
{
    let mut r: Vec<String> = Vec::new();
    let mut i: usize = 0;
    while i < v.len()
        invariant
            i <= v.len(),
            r@ =~= v@.take(i as int),
        decreases v.len() - i,
    {
        r.push(v[i].clone());
        proof {
            assert(r@ =~= v@.take(i + 1 as int));
        }
        i += 1;
    }
    proof {
        assert(v@.take(v@.len() as int) =~= v@);
    }
    r
}

/// Appends every element of `src` to `dst`; the resulting set of views is
/// the union of the two.
fn append_symbols(dst: &mut Vec<String>, src: &Vec<String>)
    ensures
        symbol_views(final(dst)@) == symbol_views(old(dst)@).union(symbol_views(src@)),
{
    let mut i: usize = 0;
    while i < src.len()
        invariant
            i <= src.len(),
            symbol_views(dst@) == symbol_views(old(dst)@).union(symbol_views(src@.take(i as int))),
        decreases src.len() - i,
    {
        proof {
            lemma_symbol_views_push(dst@, src@[i as int]);
            lemma_symbol_views_push(src@.take(i as int), src@[i as int]);
            assert(src@.take(i as int).push(src@[i as int]) =~= src@.take(i + 1 as int));
            assert(symbol_views(old(dst)@).union(symbol_views(src@.take(i as int))).insert(
                src@[i as int]@,
            ) =~= symbol_views(old(dst)@).union(
                symbol_views(src@.take(i as int)).insert(src@[i as int]@),
            ));
        }
        dst.push(src[i].clone());
        i += 1;
    }
    proof {
        assert(src@.take(src@.len() as int) =~= src@);
        assert(symbol_views(dst@) =~= symbol_views(old(dst)@).union(symbol_views(src@)));
    }
}

/// Keeps exactly the elements of `v` whose view is not among `other`'s;
/// the resulting set of views is the difference of the two.
fn retain_missing(v: &mut Vec<String>, other: &Vec<String>)
    ensures
        symbol_views(final(v)@) == symbol_views(old(v)@).difference(symbol_views(other@)),
{
    let mut kept: Vec<String> = Vec::new();
    let mut i: usize = 0;
    while i < v.len()
        invariant
            i <= v.len(),
            symbol_views(kept@) == symbol_views(v@.take(i as int)).difference(
                symbol_views(other@),
            ),
        decreases v.len() - i,
    {
        let ghost pre = kept@;
        if !vec_contains_symbol(other, &v[i]) {
            kept.push(v[i].clone());
            proof {
                lemma_symbol_views_push(pre, v@[i as int]);
            }
        }
        proof {
            lemma_symbol_views_push(v@.take(i as int), v@[i as int]);
            assert(v@.take(i as int).push(v@[i as int]) =~= v@.take(i + 1 as int));
            assert(symbol_views(kept@) =~= symbol_views(v@.take(i + 1 as int)).difference(
                symbol_views(other@),
            ));
        }
        i += 1;
    }
    proof {
        assert(v@.take(v@.len() as int) =~= v@);
    }
    *v = kept;
}

} // verus!
