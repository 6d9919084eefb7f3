//! Describing a parent with its children as one expression.
use vstd::prelude::*;
use crate::record::Handle;

verus! {

/// One parent-child pair of a view subtree.
pub type Link = (Handle, Handle);

/// What a branch brings to a tree: its root and the pairs below it.
pub type Branch = (Handle, Seq<Link>);

/// The root of a subtree together with every parent-child pair below it.
#[derive(Debug, PartialEq, Eq)]
pub struct Tree {
    pub id: Handle,
    pub links: Vec<Link>,
}

/// A sequence of trees that wait to be hung under a root.
#[derive(Debug, PartialEq, Eq)]
pub struct TreeIterator {
    pub trees: Vec<Tree>,
}

pub open spec fn branch_of(t: Tree) -> Branch {
    (t.id, t.links@)
}

pub open spec fn branches_of(trees: Seq<Tree>) -> Seq<Branch> {
    Seq::new(trees.len(), |i: int| branch_of(trees[i]))
}

/// The pairs of a tree whose root is `root` and whose branches are the first
/// `n` of `branches`: for each branch in turn, the pair that hangs it under
/// the root, then the branch's own pairs.
pub open spec fn joined(root: Handle, branches: Seq<Branch>, n: nat) -> Seq<Link>
    decreases n,
{
    if n == 0 {
        Seq::empty()
    } else {
        joined(root, branches, (n - 1) as nat).push((root, branches[n - 1].0)) + branches[n - 1].1
    }
}

impl Tree {
    pub fn new_leaf(root: Handle) -> (t: Tree)
        ensures
            branch_of(t) == (root, Seq::<Link>::empty()),
    {
        Tree { id: root, links: Vec::new() }
    }

    /// Hangs every branch under `root`, in the order given.
    pub fn new(root: Handle, branches: Vec<Tree>) -> (t: Tree)
        ensures
            t.id == root,
            t.links@ == joined(root, branches_of(branches@), branches@.len()),
    {
        let mut links: Vec<Link> = Vec::new();
        let mut i: usize = 0;
        while i < branches.len()
            invariant
                0 <= i <= branches.len(),
                links@ == joined(root, branches_of(branches@), i as nat),
            decreases branches.len() - i,
        {
            let child = &branches[i];
            links.push((root, child.id));
            let ghost base = links@;
            let mut j: usize = 0;
            while j < child.links.len()
                invariant
                    0 <= j <= child.links.len(),
                    links@ == base + child.links@.subrange(0, j as int),
                decreases child.links.len() - j,
            {
                links.push(child.links[j]);
                proof {
                    assert(child.links@.subrange(0, j + 1) == child.links@.subrange(
                        0,
                        j as int,
                    ).push(child.links@[j as int]));
                }
                j = j + 1;
            }
            proof {
                assert(child.links@.subrange(0, j as int) == child.links@);
            }
            i = i + 1;
        }
        Tree { id: root, links }
    }

    /// Hands the pairs over, in order, for the caller to commit.
    pub fn build(self) -> (links: Vec<Link>)
        ensures
            links@ == self.links@,
    {
        self.links
    }
}

impl TreeIterator {
    pub fn new(trees: Vec<Tree>) -> (it: TreeIterator)
        ensures
            it.trees == trees,
    {
        TreeIterator { trees }
    }

    /// Takes the first tree out, if there is one.
    pub fn next(&mut self) -> (t: Option<Tree>)
        ensures
            old(self).trees@.len() == 0 ==> t is None && final(self).trees@ == old(self).trees@,
            old(self).trees@.len() > 0 ==> t == Some(old(self).trees@[0]) && final(self).trees@
                == old(self).trees@.subrange(1, old(self).trees@.len() as int),
    {
        if self.trees.len() > 0 {
            let t = self.trees.remove(0);
            Some(t)
        } else {
            None
        }
    }
}

/// Anything that can stand as a branch: a bare handle or a finished subtree.
pub trait IntoTree: Sized {
    spec fn branch(&self) -> Branch;

    fn into_tree(self) -> (t: Tree)
        ensures
            branch_of(t) == self.branch(),
    ;
}

impl IntoTree for Tree {
    open spec fn branch(&self) -> Branch {
        branch_of(*self)
    }

    fn into_tree(self) -> (t: Tree) {
        self
    }
}

impl IntoTree for Handle {
    open spec fn branch(&self) -> Branch {
        (*self, Seq::empty())
    }

    fn into_tree(self) -> (t: Tree) {
        Tree::new_leaf(self)
    }
}

/// Anything that can stand as the children of a root: one branch, trees
/// that wait already, or a tuple of branches of whatever kinds.
pub trait IntoTreeIterator: Sized {
    spec fn branches(&self) -> Seq<Branch>;

    fn into_tree_iter(self) -> (it: TreeIterator)
        ensures
            branches_of(it.trees@) == self.branches(),
    ;
}

impl IntoTreeIterator for TreeIterator {
    open spec fn branches(&self) -> Seq<Branch> {
        branches_of(self.trees@)
    }

    fn into_tree_iter(self) -> (it: TreeIterator) {
        self
    }
}

impl IntoTreeIterator for Handle {
    open spec fn branches(&self) -> Seq<Branch> {
        seq![self.branch()]
    }

    fn into_tree_iter(self) -> (it: TreeIterator) {
        let mut trees: Vec<Tree> = Vec::new();
        trees.push(self.into_tree());
        proof {
            assert(branches_of(trees@) =~= seq![self.branch()]);
        }
        TreeIterator { trees }
    }
}

impl IntoTreeIterator for Tree {
    open spec fn branches(&self) -> Seq<Branch> {
        seq![self.branch()]
    }

    fn into_tree_iter(self) -> (it: TreeIterator) {
        let ghost b = self.branch();
        let mut trees: Vec<Tree> = Vec::new();
        trees.push(self);
        proof {
            assert(branches_of(trees@) =~= seq![b]);
        }
        TreeIterator { trees }
    }
}

/// Turns a plain vector of trees into the children of a root.
pub trait IteratorAdapter: Sized {
    spec fn items(&self) -> Seq<Branch>;

    fn c(self) -> (it: TreeIterator)
        ensures
            branches_of(it.trees@) == self.items(),
    ;
}

impl IteratorAdapter for Vec<Tree> {
    open spec fn items(&self) -> Seq<Branch> {
        branches_of(self@)
    }

    fn c(self) -> (it: TreeIterator) {
        TreeIterator::new(self)
    }
}

/// Hangs `children` under `root`.
pub fn build_tree<T: IntoTreeIterator>(root: Handle, children: T) -> (t: Tree)
    ensures
        t.id == root,
        t.links@ == joined(root, children.branches(), children.branches().len()),
{
    let it = children.into_tree_iter();
    Tree::new(root, it.trees)
}

/// Tree building written from the root's side.
pub trait EntityTreeExt: Sized {
    spec fn handle(&self) -> Handle;

    fn tree<T: IntoTreeIterator>(self, children: T) -> (t: Tree)
        ensures
            t.id == self.handle(),
            t.links@ == joined(self.handle(), children.branches(), children.branches().len()),
    ;

    fn l(self) -> (t: Tree)
        ensures
            branch_of(t) == (self.handle(), Seq::<Link>::empty()),
    ;
}

impl EntityTreeExt for Handle {
    open spec fn handle(&self) -> Handle {
        *self
    }

    fn tree<T: IntoTreeIterator>(self, children: T) -> (t: Tree) {
        build_tree(self, children)
    }

    fn l(self) -> (t: Tree) {
        Tree::new_leaf(self)
    }
}

impl<T0: IntoTree> IntoTreeIterator for (T0,) {
    open spec fn branches(&self) -> Seq<Branch> {
        seq![self.0.branch()]
    }

    fn into_tree_iter(self) -> (it: TreeIterator) {
        let (t0,) = self;
        let ghost b = seq![t0.branch()];
        let mut trees: Vec<Tree> = Vec::new();
        trees.push(t0.into_tree());
        proof {
            assert(branches_of(trees@) =~= b);
        }
        TreeIterator { trees }
    }
}

impl<T0: IntoTree, T1: IntoTree> IntoTreeIterator for (T0, T1,) {
    open spec fn branches(&self) -> Seq<Branch> {
        seq![self.0.branch(), self.1.branch()]
    }

    fn into_tree_iter(self) -> (it: TreeIterator) {
        let (t0, t1,) = self;
        let ghost b = seq![t0.branch(), t1.branch()];
        let mut trees: Vec<Tree> = Vec::new();
        trees.push(t0.into_tree());
        trees.push(t1.into_tree());
        proof {
            assert(branches_of(trees@) =~= b);
        }
        TreeIterator { trees }
    }
}

impl<T0: IntoTree, T1: IntoTree, T2: IntoTree> IntoTreeIterator for (T0, T1, T2,) {
    open spec fn branches(&self) -> Seq<Branch> {
        seq![self.0.branch(), self.1.branch(), self.2.branch()]
    }

    fn into_tree_iter(self) -> (it: TreeIterator) {
        let (t0, t1, t2,) = self;
        let ghost b = seq![t0.branch(), t1.branch(), t2.branch()];
        let mut trees: Vec<Tree> = Vec::new();
        trees.push(t0.into_tree());
        trees.push(t1.into_tree());
        trees.push(t2.into_tree());
        proof {
            assert(branches_of(trees@) =~= b);
        }
        TreeIterator { trees }
    }
}

impl<T0: IntoTree, T1: IntoTree, T2: IntoTree, T3: IntoTree> IntoTreeIterator for (T0, T1, T2, T3,) {
    open spec fn branches(&self) -> Seq<Branch> {
        seq![self.0.branch(), self.1.branch(), self.2.branch(), self.3.branch()]
    }

    fn into_tree_iter(self) -> (it: TreeIterator) {
        let (t0, t1, t2, t3,) = self;
        let ghost b = seq![t0.branch(), t1.branch(), t2.branch(), t3.branch()];
        let mut trees: Vec<Tree> = Vec::new();
        trees.push(t0.into_tree());
        trees.push(t1.into_tree());
        trees.push(t2.into_tree());
        trees.push(t3.into_tree());
        proof {
            assert(branches_of(trees@) =~= b);
        }
        TreeIterator { trees }
    }
}

impl<T0: IntoTree, T1: IntoTree, T2: IntoTree, T3: IntoTree, T4: IntoTree> IntoTreeIterator for (T0, T1, T2, T3, T4,) {
    open spec fn branches(&self) -> Seq<Branch> {
        seq![self.0.branch(), self.1.branch(), self.2.branch(), self.3.branch(), self.4.branch()]
    }

    fn into_tree_iter(self) -> (it: TreeIterator) {
        let (t0, t1, t2, t3, t4,) = self;
        let ghost b = seq![t0.branch(), t1.branch(), t2.branch(), t3.branch(), t4.branch()];
        let mut trees: Vec<Tree> = Vec::new();
        trees.push(t0.into_tree());
        trees.push(t1.into_tree());
        trees.push(t2.into_tree());
        trees.push(t3.into_tree());
        trees.push(t4.into_tree());
        proof {
            assert(branches_of(trees@) =~= b);
        }
        TreeIterator { trees }
    }
}

impl<T0: IntoTree, T1: IntoTree, T2: IntoTree, T3: IntoTree, T4: IntoTree, T5: IntoTree> IntoTreeIterator for (T0, T1, T2, T3, T4, T5,) {
    open spec fn branches(&self) -> Seq<Branch> {
        seq![self.0.branch(), self.1.branch(), self.2.branch(), self.3.branch(), self.4.branch(), self.5.branch()]
    }

    fn into_tree_iter(self) -> (it: TreeIterator) {
        let (t0, t1, t2, t3, t4, t5,) = self;
        let ghost b = seq![t0.branch(), t1.branch(), t2.branch(), t3.branch(), t4.branch(), t5.branch()];
        let mut trees: Vec<Tree> = Vec::new();
        trees.push(t0.into_tree());
        trees.push(t1.into_tree());
        trees.push(t2.into_tree());
        trees.push(t3.into_tree());
        trees.push(t4.into_tree());
        trees.push(t5.into_tree());
        proof {
            assert(branches_of(trees@) =~= b);
        }
        TreeIterator { trees }
    }
}

impl<T0: IntoTree, T1: IntoTree, T2: IntoTree, T3: IntoTree, T4: IntoTree, T5: IntoTree, T6: IntoTree> IntoTreeIterator for (T0, T1, T2, T3, T4, T5, T6,) {
    open spec fn branches(&self) -> Seq<Branch> {
        seq![self.0.branch(), self.1.branch(), self.2.branch(), self.3.branch(), self.4.branch(), self.5.branch(), self.6.branch()]
    }

    fn into_tree_iter(self) -> (it: TreeIterator) {
        let (t0, t1, t2, t3, t4, t5, t6,) = self;
        let ghost b = seq![t0.branch(), t1.branch(), t2.branch(), t3.branch(), t4.branch(), t5.branch(), t6.branch()];
        let mut trees: Vec<Tree> = Vec::new();
        trees.push(t0.into_tree());
        trees.push(t1.into_tree());
        trees.push(t2.into_tree());
        trees.push(t3.into_tree());
        trees.push(t4.into_tree());
        trees.push(t5.into_tree());
        trees.push(t6.into_tree());
        proof {
            assert(branches_of(trees@) =~= b);
        }
        TreeIterator { trees }
    }
}

impl<T0: IntoTree, T1: IntoTree, T2: IntoTree, T3: IntoTree, T4: IntoTree, T5: IntoTree, T6: IntoTree, T7: IntoTree> IntoTreeIterator for (T0, T1, T2, T3, T4, T5, T6, T7,) {
    open spec fn branches(&self) -> Seq<Branch> {
        seq![self.0.branch(), self.1.branch(), self.2.branch(), self.3.branch(), self.4.branch(), self.5.branch(), self.6.branch(), self.7.branch()]
    }

    fn into_tree_iter(self) -> (it: TreeIterator) {
        let (t0, t1, t2, t3, t4, t5, t6, t7,) = self;
        let ghost b = seq![t0.branch(), t1.branch(), t2.branch(), t3.branch(), t4.branch(), t5.branch(), t6.branch(), t7.branch()];
        let mut trees: Vec<Tree> = Vec::new();
        trees.push(t0.into_tree());
        trees.push(t1.into_tree());
        trees.push(t2.into_tree());
        trees.push(t3.into_tree());
        trees.push(t4.into_tree());
        trees.push(t5.into_tree());
        trees.push(t6.into_tree());
        trees.push(t7.into_tree());
        proof {
            assert(branches_of(trees@) =~= b);
        }
        TreeIterator { trees }
    }
}

impl<T0: IntoTree, T1: IntoTree, T2: IntoTree, T3: IntoTree, T4: IntoTree, T5: IntoTree, T6: IntoTree, T7: IntoTree, T8: IntoTree> IntoTreeIterator for (T0, T1, T2, T3, T4, T5, T6, T7, T8,) {
    open spec fn branches(&self) -> Seq<Branch> {
        seq![self.0.branch(), self.1.branch(), self.2.branch(), self.3.branch(), self.4.branch(), self.5.branch(), self.6.branch(), self.7.branch(), self.8.branch()]
    }

    fn into_tree_iter(self) -> (it: TreeIterator) {
        let (t0, t1, t2, t3, t4, t5, t6, t7, t8,) = self;
        let ghost b = seq![t0.branch(), t1.branch(), t2.branch(), t3.branch(), t4.branch(), t5.branch(), t6.branch(), t7.branch(), t8.branch()];
        let mut trees: Vec<Tree> = Vec::new();
        trees.push(t0.into_tree());
        trees.push(t1.into_tree());
        trees.push(t2.into_tree());
        trees.push(t3.into_tree());
        trees.push(t4.into_tree());
        trees.push(t5.into_tree());
        trees.push(t6.into_tree());
        trees.push(t7.into_tree());
        trees.push(t8.into_tree());
        proof {
            assert(branches_of(trees@) =~= b);
        }
        TreeIterator { trees }
    }
}

impl<T0: IntoTree, T1: IntoTree, T2: IntoTree, T3: IntoTree, T4: IntoTree, T5: IntoTree, T6: IntoTree, T7: IntoTree, T8: IntoTree, T9: IntoTree> IntoTreeIterator for (T0, T1, T2, T3, T4, T5, T6, T7, T8, T9,) {
    open spec fn branches(&self) -> Seq<Branch> {
        seq![self.0.branch(), self.1.branch(), self.2.branch(), self.3.branch(), self.4.branch(), self.5.branch(), self.6.branch(), self.7.branch(), self.8.branch(), self.9.branch()]
    }

    fn into_tree_iter(self) -> (it: TreeIterator) {
        let (t0, t1, t2, t3, t4, t5, t6, t7, t8, t9,) = self;
        let ghost b = seq![t0.branch(), t1.branch(), t2.branch(), t3.branch(), t4.branch(), t5.branch(), t6.branch(), t7.branch(), t8.branch(), t9.branch()];
        let mut trees: Vec<Tree> = Vec::new();
        trees.push(t0.into_tree());
        trees.push(t1.into_tree());
        trees.push(t2.into_tree());
        trees.push(t3.into_tree());
        trees.push(t4.into_tree());
        trees.push(t5.into_tree());
        trees.push(t6.into_tree());
        trees.push(t7.into_tree());
        trees.push(t8.into_tree());
        trees.push(t9.into_tree());
        proof {
            assert(branches_of(trees@) =~= b);
        }
        TreeIterator { trees }
    }
}

impl<T0: IntoTree, T1: IntoTree, T2: IntoTree, T3: IntoTree, T4: IntoTree, T5: IntoTree, T6: IntoTree, T7: IntoTree, T8: IntoTree, T9: IntoTree, T10: IntoTree> IntoTreeIterator for (T0, T1, T2, T3, T4, T5, T6, T7, T8, T9, T10,) {
    open spec fn branches(&self) -> Seq<Branch> {
        seq![self.0.branch(), self.1.branch(), self.2.branch(), self.3.branch(), self.4.branch(), self.5.branch(), self.6.branch(), self.7.branch(), self.8.branch(), self.9.branch(), self.10.branch()]
    }

    fn into_tree_iter(self) -> (it: TreeIterator) {
        let (t0, t1, t2, t3, t4, t5, t6, t7, t8, t9, t10,) = self;
        let ghost b = seq![t0.branch(), t1.branch(), t2.branch(), t3.branch(), t4.branch(), t5.branch(), t6.branch(), t7.branch(), t8.branch(), t9.branch(), t10.branch()];
        let mut trees: Vec<Tree> = Vec::new();
        trees.push(t0.into_tree());
        trees.push(t1.into_tree());
        trees.push(t2.into_tree());
        trees.push(t3.into_tree());
        trees.push(t4.into_tree());
        trees.push(t5.into_tree());
        trees.push(t6.into_tree());
        trees.push(t7.into_tree());
        trees.push(t8.into_tree());
        trees.push(t9.into_tree());
        trees.push(t10.into_tree());
        proof {
            assert(branches_of(trees@) =~= b);
        }
        TreeIterator { trees }
    }
}

impl<T0: IntoTree, T1: IntoTree, T2: IntoTree, T3: IntoTree, T4: IntoTree, T5: IntoTree, T6: IntoTree, T7: IntoTree, T8: IntoTree, T9: IntoTree, T10: IntoTree, T11: IntoTree> IntoTreeIterator for (T0, T1, T2, T3, T4, T5, T6, T7, T8, T9, T10, T11,) {
    open spec fn branches(&self) -> Seq<Branch> {
        seq![self.0.branch(), self.1.branch(), self.2.branch(), self.3.branch(), self.4.branch(), self.5.branch(), self.6.branch(), self.7.branch(), self.8.branch(), self.9.branch(), self.10.branch(), self.11.branch()]
    }

    fn into_tree_iter(self) -> (it: TreeIterator) {
        let (t0, t1, t2, t3, t4, t5, t6, t7, t8, t9, t10, t11,) = self;
        let ghost b = seq![t0.branch(), t1.branch(), t2.branch(), t3.branch(), t4.branch(), t5.branch(), t6.branch(), t7.branch(), t8.branch(), t9.branch(), t10.branch(), t11.branch()];
        let mut trees: Vec<Tree> = Vec::new();
        trees.push(t0.into_tree());
        trees.push(t1.into_tree());
        trees.push(t2.into_tree());
        trees.push(t3.into_tree());
        trees.push(t4.into_tree());
        trees.push(t5.into_tree());
        trees.push(t6.into_tree());
        trees.push(t7.into_tree());
        trees.push(t8.into_tree());
        trees.push(t9.into_tree());
        trees.push(t10.into_tree());
        trees.push(t11.into_tree());
        proof {
            assert(branches_of(trees@) =~= b);
        }
        TreeIterator { trees }
    }
}

impl IntoTreeIterator for () {
    open spec fn branches(&self) -> Seq<Branch> {
        Seq::empty()
    }

    fn into_tree_iter(self) -> (it: TreeIterator) {
        let trees: Vec<Tree> = Vec::new();
        proof {
            assert(branches_of(trees@) =~= Seq::<Branch>::empty());
        }
        TreeIterator { trees }
    }
}

impl<T0: IntoTree, T1: IntoTree, T2: IntoTree, T3: IntoTree, T4: IntoTree, T5: IntoTree, T6: IntoTree, T7: IntoTree, T8: IntoTree, T9: IntoTree, T10: IntoTree, T11: IntoTree, T12: IntoTree> IntoTreeIterator for (T0, T1, T2, T3, T4, T5, T6, T7, T8, T9, T10, T11, T12,) {
    open spec fn branches(&self) -> Seq<Branch> {
        seq![self.0.branch(), self.1.branch(), self.2.branch(), self.3.branch(), self.4.branch(), self.5.branch(), self.6.branch(), self.7.branch(), self.8.branch(), self.9.branch(), self.10.branch(), self.11.branch(), self.12.branch()]
    }

    fn into_tree_iter(self) -> (it: TreeIterator) {
        let (t0, t1, t2, t3, t4, t5, t6, t7, t8, t9, t10, t11, t12,) = self;
        let ghost b = seq![t0.branch(), t1.branch(), t2.branch(), t3.branch(), t4.branch(), t5.branch(), t6.branch(), t7.branch(), t8.branch(), t9.branch(), t10.branch(), t11.branch(), t12.branch()];
        let mut trees: Vec<Tree> = Vec::new();
        trees.push(t0.into_tree());
        trees.push(t1.into_tree());
        trees.push(t2.into_tree());
        trees.push(t3.into_tree());
        trees.push(t4.into_tree());
        trees.push(t5.into_tree());
        trees.push(t6.into_tree());
        trees.push(t7.into_tree());
        trees.push(t8.into_tree());
        trees.push(t9.into_tree());
        trees.push(t10.into_tree());
        trees.push(t11.into_tree());
        trees.push(t12.into_tree());
        proof {
            assert(branches_of(trees@) =~= b);
        }
        TreeIterator { trees }
    }
}

impl<T0: IntoTree, T1: IntoTree, T2: IntoTree, T3: IntoTree, T4: IntoTree, T5: IntoTree, T6: IntoTree, T7: IntoTree, T8: IntoTree, T9: IntoTree, T10: IntoTree, T11: IntoTree, T12: IntoTree, T13: IntoTree> IntoTreeIterator for (T0, T1, T2, T3, T4, T5, T6, T7, T8, T9, T10, T11, T12, T13,) {
    open spec fn branches(&self) -> Seq<Branch> {
        seq![self.0.branch(), self.1.branch(), self.2.branch(), self.3.branch(), self.4.branch(), self.5.branch(), self.6.branch(), self.7.branch(), self.8.branch(), self.9.branch(), self.10.branch(), self.11.branch(), self.12.branch(), self.13.branch()]
    }

    fn into_tree_iter(self) -> (it: TreeIterator) {
        let (t0, t1, t2, t3, t4, t5, t6, t7, t8, t9, t10, t11, t12, t13,) = self;
        let ghost b = seq![t0.branch(), t1.branch(), t2.branch(), t3.branch(), t4.branch(), t5.branch(), t6.branch(), t7.branch(), t8.branch(), t9.branch(), t10.branch(), t11.branch(), t12.branch(), t13.branch()];
        let mut trees: Vec<Tree> = Vec::new();
        trees.push(t0.into_tree());
        trees.push(t1.into_tree());
        trees.push(t2.into_tree());
        trees.push(t3.into_tree());
        trees.push(t4.into_tree());
        trees.push(t5.into_tree());
        trees.push(t6.into_tree());
        trees.push(t7.into_tree());
        trees.push(t8.into_tree());
        trees.push(t9.into_tree());
        trees.push(t10.into_tree());
        trees.push(t11.into_tree());
        trees.push(t12.into_tree());
        trees.push(t13.into_tree());
        proof {
            assert(branches_of(trees@) =~= b);
        }
        TreeIterator { trees }
    }
}

impl<T0: IntoTree, T1: IntoTree, T2: IntoTree, T3: IntoTree, T4: IntoTree, T5: IntoTree, T6: IntoTree, T7: IntoTree, T8: IntoTree, T9: IntoTree, T10: IntoTree, T11: IntoTree, T12: IntoTree, T13: IntoTree, T14: IntoTree> IntoTreeIterator for (T0, T1, T2, T3, T4, T5, T6, T7, T8, T9, T10, T11, T12, T13, T14,) {
    open spec fn branches(&self) -> Seq<Branch> {
        seq![self.0.branch(), self.1.branch(), self.2.branch(), self.3.branch(), self.4.branch(), self.5.branch(), self.6.branch(), self.7.branch(), self.8.branch(), self.9.branch(), self.10.branch(), self.11.branch(), self.12.branch(), self.13.branch(), self.14.branch()]
    }

    fn into_tree_iter(self) -> (it: TreeIterator) {
        let (t0, t1, t2, t3, t4, t5, t6, t7, t8, t9, t10, t11, t12, t13, t14,) = self;
        let ghost b = seq![t0.branch(), t1.branch(), t2.branch(), t3.branch(), t4.branch(), t5.branch(), t6.branch(), t7.branch(), t8.branch(), t9.branch(), t10.branch(), t11.branch(), t12.branch(), t13.branch(), t14.branch()];
        let mut trees: Vec<Tree> = Vec::new();
        trees.push(t0.into_tree());
        trees.push(t1.into_tree());
        trees.push(t2.into_tree());
        trees.push(t3.into_tree());
        trees.push(t4.into_tree());
        trees.push(t5.into_tree());
        trees.push(t6.into_tree());
        trees.push(t7.into_tree());
        trees.push(t8.into_tree());
        trees.push(t9.into_tree());
        trees.push(t10.into_tree());
        trees.push(t11.into_tree());
        trees.push(t12.into_tree());
        trees.push(t13.into_tree());
        trees.push(t14.into_tree());
        proof {
            assert(branches_of(trees@) =~= b);
        }
        TreeIterator { trees }
    }
}

impl<T0: IntoTree, T1: IntoTree, T2: IntoTree, T3: IntoTree, T4: IntoTree, T5: IntoTree, T6: IntoTree, T7: IntoTree, T8: IntoTree, T9: IntoTree, T10: IntoTree, T11: IntoTree, T12: IntoTree, T13: IntoTree, T14: IntoTree, T15: IntoTree> IntoTreeIterator for (T0, T1, T2, T3, T4, T5, T6, T7, T8, T9, T10, T11, T12, T13, T14, T15,) {
    open spec fn branches(&self) -> Seq<Branch> {
        seq![self.0.branch(), self.1.branch(), self.2.branch(), self.3.branch(), self.4.branch(), self.5.branch(), self.6.branch(), self.7.branch(), self.8.branch(), self.9.branch(), self.10.branch(), self.11.branch(), self.12.branch(), self.13.branch(), self.14.branch(), self.15.branch()]
    }

    fn into_tree_iter(self) -> (it: TreeIterator) {
        let (t0, t1, t2, t3, t4, t5, t6, t7, t8, t9, t10, t11, t12, t13, t14, t15,) = self;
        let ghost b = seq![t0.branch(), t1.branch(), t2.branch(), t3.branch(), t4.branch(), t5.branch(), t6.branch(), t7.branch(), t8.branch(), t9.branch(), t10.branch(), t11.branch(), t12.branch(), t13.branch(), t14.branch(), t15.branch()];
        let mut trees: Vec<Tree> = Vec::new();
        trees.push(t0.into_tree());
        trees.push(t1.into_tree());
        trees.push(t2.into_tree());
        trees.push(t3.into_tree());
        trees.push(t4.into_tree());
        trees.push(t5.into_tree());
        trees.push(t6.into_tree());
        trees.push(t7.into_tree());
        trees.push(t8.into_tree());
        trees.push(t9.into_tree());
        trees.push(t10.into_tree());
        trees.push(t11.into_tree());
        trees.push(t12.into_tree());
        trees.push(t13.into_tree());
        trees.push(t14.into_tree());
        trees.push(t15.into_tree());
        proof {
            assert(branches_of(trees@) =~= b);
        }
        TreeIterator { trees }
    }
}

} // verus!
