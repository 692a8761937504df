//! A tree of objects on the responder, and its flattening into paths.

use vstd::prelude::*;

use crate::records::ObjectInfo;
use crate::storage::ObjectHandle;

verus! {

/// An object of the responder together with its children, as discovered by
/// repeated GetObjectHandles/GetObjectInfo operations.
pub struct ObjectTree {
    /// The handle of this object.
    pub handle: ObjectHandle,
    /// The descriptor of this object.
    pub info: ObjectInfo,
    /// The children, when this object is an association that has been
    /// expanded; `None` for unexpanded or leaf objects.
    pub children: Option<Vec<ObjectTree>>,
}

/// The number of nodes in one tree.
pub open spec fn tree_count(t: ObjectTree) -> nat
    decreases t,
{
    1 + (match t.children {
        None => 0nat,
        Some(cs) => forest_count(cs@),
    })
}

/// The number of nodes in a forest.
pub open spec fn forest_count(ts: Seq<ObjectTree>) -> nat
    decreases ts,
{
    if ts.len() == 0 {
        0
    } else {
        tree_count(ts[0]) + forest_count(ts.drop_first())
    }
}

/// The number of nodes still to be visited in a queue of prefixed trees.
pub open spec fn pending_count(ts: Seq<(String, ObjectTree)>) -> nat
    decreases ts,
{
    if ts.len() == 0 {
        0
    } else {
        tree_count(ts[0].1) + pending_count(ts.drop_first())
    }
}

/// Pending nodes add up over concatenation.
proof fn lemma_pending_concat(a: Seq<(String, ObjectTree)>, b: Seq<(String, ObjectTree)>)
    ensures
        pending_count(a + b) == pending_count(a) + pending_count(b),
    decreases a.len(),
{
    if a.len() == 0 {
        assert(a + b =~= b);
    } else {
        assert((a + b)[0] == a[0]);
        assert((a + b).drop_first() =~= a.drop_first() + b);
        lemma_pending_concat(a.drop_first(), b);
    }
}

/// Two forests whose trees are pairwise equal in size have the same size.
proof fn lemma_forest_count_pointwise(a: Seq<ObjectTree>, b: Seq<ObjectTree>)
    requires
        a.len() == b.len(),
        forall|i: int| 0 <= i < a.len() ==> tree_count(#[trigger] a[i]) == tree_count(b[i]),
    ensures
        forest_count(a) == forest_count(b),
    decreases a.len(),
{
    if a.len() > 0 {
        assert(forall|i: int| 0 <= i < a.drop_first().len() ==> tree_count(
            #[trigger] a.drop_first()[i],
        ) == tree_count(b.drop_first()[i]));
        lemma_forest_count_pointwise(a.drop_first(), b.drop_first());
    }
}

impl ObjectInfo {
    /// An owned copy of this descriptor, equal to it.
    pub fn duplicate(&self) -> (r: ObjectInfo)
        ensures
            r == *self,
    {
        ObjectInfo {
            storage_id: self.storage_id,
            object_format: self.object_format,
            protection_status: self.protection_status,
            object_compressed_size: self.object_compressed_size,
            thumb_format: self.thumb_format,
            thumb_compressed_size: self.thumb_compressed_size,
            thumb_pix_width: self.thumb_pix_width,
            thumb_pix_height: self.thumb_pix_height,
            image_pix_width: self.image_pix_width,
            image_pix_height: self.image_pix_height,
            image_bit_depth: self.image_bit_depth,
            parent_object: self.parent_object,
            association_type: self.association_type,
            association_desc: self.association_desc,
            sequence_number: self.sequence_number,
            filename: self.filename.clone(),
            capture_date: self.capture_date.clone(),
            modification_date: self.modification_date.clone(),
            keywords: self.keywords.clone(),
        }
    }
}

impl ObjectTree {
    /// An owned copy of this tree: the same descriptor and handle at every
    /// node, and in particular the same number of nodes.
    pub fn duplicate(&self) -> (r: ObjectTree)
        ensures
            tree_count(r) == tree_count(*self),
            r.handle == self.handle,
            r.info == self.info,
        decreases *self,
    {
        broadcast use vstd::std_specs::vec::group_vec_axioms;

        let children = match &self.children {
            None => None,
            Some(cs) => {
                let n = cs.len();
                let mut out: Vec<ObjectTree> = Vec::new();
                let mut i: usize = 0;
                while i < n
                    invariant
                        0 <= i <= n,
                        n == cs@.len(),
                        out@.len() == i,
                        forall|j: int| 0 <= j < i ==> tree_count(#[trigger] out@[j]) == tree_count(
                            cs@[j],
                        ),
                        self.children == Some(*cs),
                    decreases n - i,
                {
                    proof {
                        assert(decreases_to!(*self => cs@[i as int])) by {
                            assert(decreases_to!(*self => self.children));
                            assert(decreases_to!(self.children => self.children->Some_0));
                            assert(decreases_to!(*cs => cs@));
                            assert(decreases_to!(cs@ => cs@[i as int]));
                        }
                    }
                    out.push(cs[i].duplicate());
                    i = i + 1;
                }
                proof {
                    lemma_forest_count_pointwise(out@, cs@);
                }
                Some(out)
            },
        };
        ObjectTree { handle: self.handle, info: self.info.duplicate(), children }
    }

    /// Flatten this tree into `(path, subtree)` pairs in breadth-first
    /// order, one pair per node: each node's path is its ancestors'
    /// filenames and its own, joined with `/`.
    #[verifier::loop_isolation(false)]
    pub fn walk(&self) -> (r: Vec<(String, ObjectTree)>)
        ensures
            r@.len() == tree_count(*self),
    {
        let mut queue: Vec<(String, ObjectTree)> = Vec::new();
        let node = self.duplicate();
        let ghost node_count = tree_count(node);
        queue.push((String::new(), node));
        let mut out: Vec<(String, ObjectTree)> = Vec::new();
        let mut head: usize = 0;
        proof {
            assert(queue@.skip(0) =~= queue@);
            assert(queue@.len() == 1);
            assert(queue@.drop_first() =~= Seq::<(String, ObjectTree)>::empty());
            assert(queue@[0].1 == node);
            assert(pending_count(Seq::<(String, ObjectTree)>::empty()) == 0);
            assert(pending_count(queue@) == node_count);
            assert(pending_count(queue@) == tree_count(*self));
        }
        while head < queue.len()
            invariant
                0 <= head <= queue@.len(),
                out@.len() + pending_count(queue@.skip(head as int)) == tree_count(*self),
            decreases pending_count(queue@.skip(head as int)),
        {
            let ghost tail0 = queue@.skip(head as int);
            let prefix = queue[head].0.clone();
            let item = queue[head].1.duplicate();
            let ghost item_count = tree_count(queue@[head as int].1);
            proof {
                assert(tail0[0] == queue@[head as int]);
                assert(tail0.drop_first() =~= queue@.skip(head as int + 1));
                assert(pending_count(tail0) == item_count + pending_count(tail0.drop_first()));
            }
            head = head + 1;
            let mut path = prefix;
            if !path.as_str().is_empty() {
                path.append("/");
            }
            path.append(self_filename(&item));
            out.push((path.clone(), item.duplicate()));
            let ghost mid_tail = queue@.skip(head as int);
            match item.children {
                None => {
                    proof {
                        assert(tree_count(item) == 1);
                        assert(pending_count(queue@.skip(head as int)) == pending_count(tail0)
                            - item_count);
                    }
                },
                Some(children) => {
                    let n = children.len();
                    let ghost kids = children@;
                    proof {
                        assert(tree_count(item) == 1 + forest_count(kids));
                        assert(kids.skip(0) =~= kids);
                    }
                    let mut j: usize = 0;
                    while j < n
                        invariant
                            0 <= j <= n,
                            head <= queue@.len(),
                            n == kids.len(),
                            children@ == kids,
                            out@.len() + pending_count(queue@.skip(head as int)) + forest_count(
                                kids.skip(j as int),
                            ) == tree_count(*self),
                        decreases n - j,
                    {
                        let ghost ktail = kids.skip(j as int);
                        let c = children[j].duplicate();
                        let ghost pre_push = queue@.skip(head as int);
                        queue.push((path.clone(), c));
                        proof {
                            assert(ktail[0] == kids[j as int]);
                            assert(ktail.drop_first() =~= kids.skip(j as int + 1));
                            assert(forest_count(ktail) == tree_count(kids[j as int])
                                + forest_count(kids.skip(j as int + 1)));
                            let added = queue@.skip(head as int).last();
                            assert(queue@.skip(head as int) =~= pre_push + seq![added]);
                            lemma_pending_concat(pre_push, seq![added]);
                            assert(seq![added].drop_first() =~= Seq::<
                                (String, ObjectTree),
                            >::empty());
                            assert(pending_count(seq![added]) == tree_count(kids[j as int]));
                        }
                        j = j + 1;
                    }
                    proof {
                        assert(kids.skip(n as int) =~= Seq::<ObjectTree>::empty());
                    }
                },
            }
        }
        proof {
            assert(queue@.skip(queue@.len() as int) =~= Seq::<(String, ObjectTree)>::empty());
        }
        out
    }
}

/// The filename of a tree node, as a borrowed string.
fn self_filename(t: &ObjectTree) -> (r: &str)
    ensures
        r@ == t.info.filename@,
{
    t.info.filename.as_str()
}

} // verus!
