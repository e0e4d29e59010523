//! Drawing order of tracks: image and text tracks are drawn from the lowest
//! layer up, tracks on the same layer in their own order.
use vstd::prelude::*;
use crate::project::track::{Track, TrackView};
use crate::project::track_views;

verus! {

/// `t` placed into `q` after every track whose layer is not above its own,
/// counting from the end of `q`.
pub open spec fn insert_layer(q: Seq<TrackView>, t: TrackView) -> Seq<TrackView>
    decreases q.len(),
{
    if q.len() == 0 {
        seq![t]
    } else if q.last().layer_order <= t.layer_order {
        q.push(t)
    } else {
        insert_layer(q.drop_last(), t).push(q.last())
    }
}

/// The tracks ordered by layer, lowest first; tracks on the same layer keep
/// their order (a stable sort).
pub open spec fn by_layer(s: Seq<TrackView>) -> Seq<TrackView>
    decreases s.len(),
{
    if s.len() == 0 {
        Seq::empty()
    } else {
        insert_layer(by_layer(s.drop_last()), s.last())
    }
}

/// Whether the layers never go down along `s`.
pub open spec fn layers_ascend(s: Seq<TrackView>) -> bool {
    forall|i: int, j: int| 0 <= i < j < s.len() ==> s[i].layer_order <= s[j].layer_order
}

proof fn lemma_insert_layer(q: Seq<TrackView>, t: TrackView)
    requires
        layers_ascend(q),
    ensures
        layers_ascend(insert_layer(q, t)),
        insert_layer(q, t).len() == q.len() + 1,
        insert_layer(q, t).to_multiset() == q.to_multiset().insert(t),
        q.len() > 0 ==> forall|i: int|
            0 <= i < insert_layer(q, t).len() ==> #[trigger] insert_layer(q, t)[i].layer_order <= (
            if q.last().layer_order <= t.layer_order {
                t.layer_order
            } else {
                q.last().layer_order
            }),
        q.len() == 0 ==> insert_layer(q, t) == seq![t],
    decreases q.len(),
{
    broadcast use vstd::seq_lib::group_to_multiset_ensures;

    if q.len() == 0 {
        assert(seq![t] =~= Seq::<TrackView>::empty().push(t));
    } else if q.last().layer_order <= t.layer_order {
    } else {
        let d = q.drop_last();
        lemma_insert_layer(d, t);
        let r = insert_layer(d, t);
        assert(q =~= d.push(q.last()));
        assert forall|i: int| 0 <= i < r.len() implies #[trigger] r[i].layer_order <= q.last().layer_order by {
            if d.len() == 0 {
                assert(r[i] == t);
            } else {
                assert(d.last() == q[q.len() - 2]);
            }
        }
    }
}

/// Drawing by layer keeps every track once and puts the layers in rising
/// order.
pub proof fn law_by_layer_sorts(s: Seq<TrackView>)
    ensures
        layers_ascend(by_layer(s)),
        by_layer(s).to_multiset() == s.to_multiset(),
        by_layer(s).len() == s.len(),
    decreases s.len(),
{
    broadcast use vstd::seq_lib::group_to_multiset_ensures;

    if s.len() > 0 {
        let d = s.drop_last();
        law_by_layer_sorts(d);
        lemma_insert_layer(by_layer(d), s.last());
        assert(s =~= d.push(s.last()));
        assert(d.push(s.last()).to_multiset() == d.to_multiset().insert(s.last()));
    } else {
        assert(s =~= Seq::<TrackView>::empty());
    }
}

/// The tracks of `s` on layer `l`, in order.
pub open spec fn on_layer(s: Seq<TrackView>, l: usize) -> Seq<TrackView>
    decreases s.len(),
{
    if s.len() == 0 {
        Seq::empty()
    } else {
        on_layer(s.drop_last(), l) + (if s.last().layer_order == l {
            seq![s.last()]
        } else {
            Seq::empty()
        })
    }
}

proof fn lemma_insert_on_layer(q: Seq<TrackView>, t: TrackView, l: usize)
    ensures
        on_layer(insert_layer(q, t), l) == on_layer(q, l) + (if t.layer_order == l {
            seq![t]
        } else {
            Seq::empty()
        }),
    decreases q.len(),
{
    if q.len() == 0 {
        let r = seq![t];
        assert(r.drop_last() =~= q);
        assert(r.last() == t);
        assert(on_layer(q, l) =~= Seq::<TrackView>::empty());
        if t.layer_order == l {
            assert(on_layer(r, l) =~= on_layer(q, l) + seq![t]);
        } else {
            assert(on_layer(r, l) =~= on_layer(q, l));
        }
    } else if q.last().layer_order <= t.layer_order {
        assert(q.push(t).drop_last() =~= q);
    } else {
        let d = q.drop_last();
        lemma_insert_on_layer(d, t, l);
        let r = insert_layer(d, t);
        assert(r.push(q.last()).drop_last() =~= r);
        if t.layer_order == l {
            assert(on_layer(insert_layer(q, t), l) =~= on_layer(q, l) + seq![t]);
        } else {
            assert(on_layer(insert_layer(q, t), l) =~= on_layer(q, l));
        }
    }
}

/// Drawing by layer keeps the order of the tracks that share a layer.
pub proof fn law_by_layer_is_stable(s: Seq<TrackView>, l: usize)
    ensures
        on_layer(by_layer(s), l) == on_layer(s, l),
    decreases s.len(),
{
    if s.len() > 0 {
        let d = s.drop_last();
        law_by_layer_is_stable(d, l);
        lemma_insert_on_layer(by_layer(d), s.last(), l);
    }
}

/// Copies of the tracks in the order of `by_layer`.
pub fn tracks_by_layer(tracks: &Vec<Track>) -> (r: Vec<Track>)
    ensures
        track_views(r@) == by_layer(track_views(tracks@)),
{
    let ghost s = track_views(tracks@);
    let mut out: Vec<Track> = Vec::new();
    let mut i: usize = 0;
    assert(s.take(0) =~= Seq::<TrackView>::empty());
    assert(track_views(out@) =~= Seq::<TrackView>::empty());
    while i < tracks.len()
        invariant
            0 <= i <= tracks@.len(),
            s == track_views(tracks@),
            track_views(out@) == by_layer(s.take(i as int)),
        decreases tracks.len() - i,
    {
        let t = &tracks[i];
        let ghost q = track_views(out@);
        proof {
            assert(s.take(i + 1).drop_last() =~= s.take(i as int));
            assert(s.take(i + 1).last() == t@);
            assert(q.take(q.len() as int) =~= q);
            assert(q.skip(q.len() as int) =~= Seq::<TrackView>::empty());
        }
        let mut j: usize = out.len();
        while j > 0 && out[j - 1].layer_order > t.layer_order
            invariant
                0 <= j <= out@.len(),
                q == track_views(out@),
                insert_layer(q, t@) == insert_layer(q.take(j as int), t@) + q.skip(j as int),
            decreases j,
        {
            proof {
                let p = q.take(j as int);
                assert(p.last() == q[j - 1]);
                assert(p.drop_last() =~= q.take(j - 1));
                assert(insert_layer(p, t@) == insert_layer(q.take(j - 1), t@).push(q[j - 1]));
                assert(q.skip(j - 1) =~= seq![q[j - 1]] + q.skip(j as int));
                assert(insert_layer(q.take(j - 1), t@).push(q[j - 1]) + q.skip(j as int)
                    =~= insert_layer(q.take(j - 1), t@) + q.skip(j - 1));
            }
            j = j - 1;
        }
        proof {
            let p = q.take(j as int);
            if j == 0 {
                assert(p =~= Seq::<TrackView>::empty());
                assert(insert_layer(p, t@) =~= seq![t@]);
            } else {
                assert(p.last() == q[j - 1]);
                assert(insert_layer(p, t@) == p.push(t@));
            }
        }
        out.insert(j, t.clone());
        proof {
            assert(track_views(out@) =~= q.take(j as int).push(t@) + q.skip(j as int));
        }
        i = i + 1;
    }
    assert(s.take(tracks@.len() as int) =~= s);
    out
}

} // verus!
