//! Discovery of the files below a directory, as a machine that the caller
//! drives: the machine says which directory to list next, the caller lists
//! it and hands the entries back. The machine keeps a work list in place of
//! recursion, and still visits in pre-order: the entries of a directory are
//! all handled before the entries that came after the directory.

use vstd::prelude::*;

verus! {

/// One entry of a directory listing.
#[derive(Clone, Debug, PartialEq, Eq)]
pub struct Listed {
    pub path: String,
    pub is_dir: bool,
}

/// What the caller is to do next.
#[derive(Clone, Debug, PartialEq, Eq)]
pub enum WalkStep {
    /// List this directory and hand its entries to `Walker::listed`.
    List(String),
    /// Nothing is left to list: the walk is complete.
    Done,
}

/// The state of a walk: the entries still to visit and the files found.
pub struct Walker {
    pending: Vec<Listed>,
    files: Vec<String>,
}

/// The paths of the entries at the head of `entries` that are no
/// directories, up to the first directory.
pub open spec fn files_before_dir(entries: Seq<(Seq<char>, bool)>) -> Seq<Seq<char>>
    decreases entries.len(),
{
    if entries.len() == 0 || entries[0].1 {
        Seq::empty()
    } else {
        seq![entries[0].0] + files_before_dir(entries.skip(1))
    }
}

/// The path of the first directory among `entries`, if there is one.
pub open spec fn first_dir(entries: Seq<(Seq<char>, bool)>) -> Option<Seq<char>>
    decreases entries.len(),
{
    if entries.len() == 0 {
        None
    } else if entries[0].1 {
        Some(entries[0].0)
    } else {
        first_dir(entries.skip(1))
    }
}

/// The entries that follow the first directory among `entries`; none where
/// there is no directory.
pub open spec fn after_first_dir(entries: Seq<(Seq<char>, bool)>) -> Seq<(Seq<char>, bool)>
    decreases entries.len(),
{
    if entries.len() == 0 {
        Seq::empty()
    } else if entries[0].1 {
        entries.skip(1)
    } else {
        after_first_dir(entries.skip(1))
    }
}

/// The entries of a listing as mathematical values: path and directory flag.
pub open spec fn listing_view(entries: Seq<Listed>) -> Seq<(Seq<char>, bool)> {
    Seq::new(entries.len(), |i: int| (entries[i].path@, entries[i].is_dir))
}

/// The paths held by a vector of strings.
pub open spec fn paths_view(paths: Seq<String>) -> Seq<Seq<char>> {
    Seq::new(paths.len(), |i: int| paths[i]@)
}

impl Walker {
    /// The entries still to visit, the next one first.
    pub closed spec fn remaining(&self) -> Seq<(Seq<char>, bool)> {
        Seq::new(
            self.pending.len() as nat,
            |i: int|
                (
                    self.pending[self.pending.len() - 1 - i].path@,
                    self.pending[self.pending.len() - 1 - i].is_dir,
                ),
        )
    }

    /// The files found so far, in the order of their discovery.
    pub closed spec fn found(&self) -> Seq<Seq<char>> {
        paths_view(self.files@)
    }

    /// A walk that has nothing to visit and has found nothing. The caller
    /// lists the root directory and hands its entries to `listed`.
    pub fn new() -> (walker: Walker)
        ensures
            walker.remaining() == Seq::<(Seq<char>, bool)>::empty(),
            walker.found() == Seq::<Seq<char>>::empty(),
    {
        let walker = Walker { pending: Vec::new(), files: Vec::new() };
        assert(walker.remaining() =~= Seq::<(Seq<char>, bool)>::empty());
        assert(walker.found() =~= Seq::<Seq<char>>::empty());
        walker
    }

    /// Takes the entries of the directory that was listed last. They are
    /// visited, in their order, before everything that was waiting.
    pub fn listed(&mut self, entries: Vec<Listed>)
        ensures
            final(self).remaining() == listing_view(entries@) + old(self).remaining(),
            final(self).found() == old(self).found(),
    {
        let mut rest = entries;
        let ghost all = listing_view(entries@);
        let ghost waiting = self.remaining();
        assert(self.remaining() =~= all.skip(rest.len() as int) + waiting);
        loop
            invariant
                rest.len() <= all.len(),
                listing_view(rest@) == all.take(rest.len() as int),
                self.remaining() == all.skip(rest.len() as int) + waiting,
                self.found() == old(self).found(),
            ensures
                rest.len() == 0,
            decreases rest.len(),
        {
            let ghost before = self.remaining();
            let ghost count = rest.len();
            let ghost rest_before = rest@;
            match rest.pop() {
                None => {
                    break ;
                },
                Some(entry) => {
                    self.pending.push(entry);
                    proof {
                        let head = (entry.path@, entry.is_dir);
                        assert(head == listing_view(rest_before)[count - 1]);
                        assert(head == all[count - 1]);
                        assert(self.remaining() =~= seq![head] + before);
                        assert(seq![head] + (all.skip(count as int) + waiting) =~= all.skip(
                            count - 1,
                        ) + waiting);
                        assert(listing_view(rest@) =~= all.take(count - 1));
                    }
                },
            }
        }
        assert(all.skip(0) =~= all);
    }

    /// Visits entries up to the next directory. Every entry before it is a
    /// file and joins the files found; the directory is handed to the caller
    /// to list. Where no directory is left, every entry joins the files and
    /// the walk is done.
    pub fn advance(&mut self) -> (step: WalkStep)
        ensures
            final(self).found() == old(self).found() + files_before_dir(old(self).remaining()),
            final(self).remaining() == after_first_dir(old(self).remaining()),
            match step {
                WalkStep::List(path) => first_dir(old(self).remaining()) == Some(path@),
                WalkStep::Done => first_dir(old(self).remaining()) is None,
            },
    {
        assert(self.found() =~= old(self).found() + Seq::<Seq<char>>::empty());
        let ghost mut passed: Seq<Seq<char>> = Seq::empty();
        loop
            invariant
                self.found() == old(self).found() + passed,
                files_before_dir(old(self).remaining()) == passed + files_before_dir(
                    self.remaining(),
                ),
                first_dir(old(self).remaining()) == first_dir(self.remaining()),
                after_first_dir(old(self).remaining()) == after_first_dir(self.remaining()),
            decreases self.pending.len(),
        {
            let ghost before = self.remaining();
            let ghost found_before = self.found();
            match self.pending.pop() {
                None => {
                    assert(before.len() == 0);
                    assert(self.remaining() =~= before);
                    assert(passed + Seq::<Seq<char>>::empty() =~= passed);
                    return WalkStep::Done;
                },
                Some(entry) => {
                    assert(before[0] == (entry.path@, entry.is_dir));
                    assert(self.remaining() =~= before.skip(1));
                    if entry.is_dir {
                        assert(passed + Seq::<Seq<char>>::empty() =~= passed);
                        return WalkStep::List(entry.path);
                    } else {
                        let ghost path = entry.path@;
                        self.files.push(entry.path);
                        proof {
                            assert(self.found() =~= found_before + seq![path]);
                            assert(old(self).found() + passed + seq![path] =~= old(self).found()
                                + passed.push(path));
                            assert(passed + (seq![path] + files_before_dir(before.skip(1)))
                                =~= passed.push(path) + files_before_dir(before.skip(1)));
                            passed = passed.push(path);
                        }
                    }
                },
            }
        }
    }

    /// Whether anything is left to visit.
    pub fn is_done(&self) -> (done: bool)
        ensures
            done == (self.remaining().len() == 0),
    {
        self.pending.len() == 0
    }

    /// Ends the walk and hands out the files found, in the order of their
    /// discovery.
    pub fn into_files(self) -> (files: Vec<String>)
        ensures
            paths_view(files@) == self.found(),
    {
        self.files
    }
}

/// A directory tree as the walk sees it: files, and directories with their
/// entries in the order in which the file system lists them.
pub ghost enum Tree {
    File(Seq<char>),
    Dir(Seq<char>, Seq<Tree>),
}

/// The files of a tree in pre-order: a directory's files are those of its
/// entries, in the entries' order.
pub open spec fn tree_files(tree: Tree) -> Seq<Seq<char>>
    decreases tree,
{
    match tree {
        Tree::File(path) => seq![path],
        Tree::Dir(_, children) => forest_files(children),
    }
}

/// The files of a list of trees in pre-order: all files of the first tree,
/// then those of the trees after it.
pub open spec fn forest_files(forest: Seq<Tree>) -> Seq<Seq<char>>
    decreases forest,
{
    if forest.len() == 0 {
        Seq::empty()
    } else {
        tree_files(forest[0]) + forest_files(forest.subrange(1, forest.len() as int))
    }
}

/// What listing a directory with these trees as entries gives.
pub open spec fn listing_of(forest: Seq<Tree>) -> Seq<(Seq<char>, bool)> {
    Seq::new(
        forest.len(),
        |i: int|
            match forest[i] {
                Tree::File(path) => (path, false),
                Tree::Dir(path, _) => (path, true),
            },
    )
}

/// How many trees at the head of `forest` are files.
pub open spec fn leading_files(forest: Seq<Tree>) -> nat
    decreases forest.len(),
{
    if forest.len() == 0 || forest[0] is Dir {
        0
    } else {
        1 + leading_files(forest.skip(1))
    }
}

/// The files of two lists of trees, one after the other, are the files of
/// the first list followed by those of the second; and likewise for what
/// listing them gives.
pub proof fn forest_files_of_joined(front: Seq<Tree>, back: Seq<Tree>)
    ensures
        forest_files(front + back) == forest_files(front) + forest_files(back),
        listing_of(front + back) == listing_of(front) + listing_of(back),
    decreases front.len(),
{
    assert(listing_of(front + back) =~= listing_of(front) + listing_of(back));
    if front.len() == 0 {
        assert(front + back =~= back);
        assert(forest_files(front) + forest_files(back) =~= forest_files(back));
    } else {
        let joined = front + back;
        let front_rest = front.subrange(1, front.len() as int);
        assert(joined[0] == front[0]);
        assert(joined.subrange(1, joined.len() as int) =~= front_rest + back);
        forest_files_of_joined(front_rest, back);
        assert(tree_files(front[0]) + (forest_files(front_rest) + forest_files(back)) =~= (
        tree_files(front[0]) + forest_files(front_rest)) + forest_files(back));
    }
}

/// One round of the walk keeps the pre-order. With the trees of `forest`
/// still to visit, `advance` finds the files at the head of the forest and
/// asks for the first directory; once its entries are handed to `listed`,
/// the trees to visit are those entries followed by what came after the
/// directory, and the files found in the round together with the files of
/// those trees are the files of `forest` in pre-order. Where the forest has
/// no directory, the round finds every file and nothing is left.
pub proof fn walk_round_keeps_preorder(forest: Seq<Tree>)
    ensures
        leading_files(forest) <= forest.len(),
        leading_files(forest) == forest.len() ==> {
            &&& first_dir(listing_of(forest)) is None
            &&& after_first_dir(listing_of(forest)) == Seq::<(Seq<char>, bool)>::empty()
            &&& forest_files(forest) == files_before_dir(listing_of(forest))
        },
        leading_files(forest) < forest.len() ==> {
            let at = leading_files(forest) as int;
            &&& forest[at] is Dir
            &&& first_dir(listing_of(forest)) == Some(forest[at]->Dir_0)
            &&& after_first_dir(listing_of(forest)) == listing_of(forest.skip(at + 1))
            &&& forest_files(forest) == files_before_dir(listing_of(forest)) + forest_files(
                forest[at]->Dir_1 + forest.skip(at + 1),
            )
        },
    decreases forest.len(),
{
    let entries = listing_of(forest);
    if forest.len() == 0 {
        assert(after_first_dir(entries) =~= Seq::<(Seq<char>, bool)>::empty());
    } else {
        let rest = forest.skip(1);
        assert(rest =~= forest.subrange(1, forest.len() as int));
        assert(entries.skip(1) =~= listing_of(rest));
        assert(forest_files(forest) == tree_files(forest[0]) + forest_files(rest));
        match forest[0] {
            Tree::Dir(path, children) => {
                forest_files_of_joined(children, rest);
                assert(entries[0] == (path, true));
                assert(leading_files(forest) == 0);
                assert(files_before_dir(entries) + forest_files(children + rest) =~= forest_files(
                    children + rest,
                ));
            },
            Tree::File(path) => {
                walk_round_keeps_preorder(rest);
                let found = files_before_dir(entries.skip(1));
                assert(entries[0] == (path, false));
                assert(files_before_dir(entries) == seq![path] + found);
                assert(first_dir(entries) == first_dir(entries.skip(1)));
                assert(after_first_dir(entries) == after_first_dir(entries.skip(1)));
                assert(leading_files(forest) == 1 + leading_files(rest));
                if leading_files(rest) == rest.len() {
                    assert(forest_files(forest) =~= seq![path] + found);
                } else {
                    let at = leading_files(rest) as int;
                    assert(rest[at] == forest[at + 1]);
                    assert(rest.skip(at + 1) =~= forest.skip(at + 2));
                    let later = forest_files(rest[at]->Dir_1 + rest.skip(at + 1));
                    assert(seq![path] + (found + later) =~= (seq![path] + found) + later);
                }
            },
        }
    }
}

} // verus!
