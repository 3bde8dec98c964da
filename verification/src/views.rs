use vstd::prelude::*;

verus! {

/// Pushing onto a vector pushes the element's deep view onto the
/// vector's deep view.
pub proof fn lemma_vec_push_deep_view<T: DeepView>(pre: Vec<T>, post: Vec<T>, x: T)
    requires
        post@ == pre@.push(x),
    ensures
        post.deep_view() =~= pre.deep_view().push(x.deep_view()),
{
    assert forall|k: int| 0 <= k < post.deep_view().len() implies #[trigger] post.deep_view()[k]
        == pre.deep_view().push(x.deep_view())[k] by {
        assert(post.deep_view()[k] == post@[k].deep_view());
        if k < pre@.len() {
            assert(post@[k] == pre@[k]);
            assert(pre.deep_view()[k] == pre@[k].deep_view());
        }
    }
}

/// Appending one vector to another concatenates their deep views.
pub proof fn lemma_vec_concat_deep_view<T: DeepView>(pre: Vec<T>, post: Vec<T>, tail: Seq<T>)
    requires
        post@ == pre@ + tail,
    ensures
        post.deep_view() =~= pre.deep_view() + Seq::new(tail.len(), |i: int| tail[i].deep_view()),
{
    assert forall|k: int| 0 <= k < post.deep_view().len() implies #[trigger] post.deep_view()[k]
        == (pre.deep_view() + Seq::new(tail.len(), |i: int| tail[i].deep_view()))[k] by {
        assert(post.deep_view()[k] == post@[k].deep_view());
        if k < pre@.len() {
            assert(post@[k] == pre@[k]);
            assert(pre.deep_view()[k] == pre@[k].deep_view());
        } else {
            assert(post@[k] == tail[k - pre@.len()]);
        }
    }
}

} // verus!
