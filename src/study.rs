//! Studies: trees of annotated positions, grouped into chapters.

use vstd::prelude::*;
use vstd::string::StringSliceAdditionalSpecFns;
use vstd::utf8::*;
use crate::clock::{local_now_millis, local_now_rfc3339};
use crate::game::{MoveModel, MoveRecord};
use crate::text::{decimal, i64_to_decimal, signed_decimal, u64_to_decimal};

verus! {

broadcast use vstd::std_specs::vec::group_vec_axioms;

/// A position of a study tree, with its comments and the variations that follow.
#[derive(Debug)]
pub struct StudyNode {
    /// Index among the parent's children.
    pub id: usize,
    /// The move that leads here; `None` at the root.
    pub move_record: Option<MoveRecord>,
    pub fen: String,
    pub comments: Vec<String>,
    pub children: Vec<StudyNode>,
}

pub struct NodeModel {
    pub id: usize,
    pub mv: Option<MoveModel>,
    pub fen: Seq<char>,
    pub comments: Seq<Seq<char>>,
    pub children: Seq<NodeModel>,
}

pub open spec fn node_view(n: StudyNode) -> NodeModel
    decreases n,
{
    NodeModel {
        id: n.id,
        mv: match n.move_record {
            Some(m) => Some(m@),
            None => None,
        },
        fen: n.fen@,
        comments: n.comments.deep_view(),
        children: Seq::new(
            n.children.len() as nat,
            |i: int|
                if 0 <= i < n.children.len() {
                    node_view(n.children[i])
                } else {
                    arbitrary()
                },
        ),
    }
}

impl View for StudyNode {
    type V = NodeModel;

    open spec fn view(&self) -> NodeModel {
        node_view(*self)
    }
}

pub open spec fn leaf(id: usize, mv: Option<MoveModel>, fen: Seq<char>) -> NodeModel {
    NodeModel { id, mv, fen, comments: Seq::empty(), children: Seq::empty() }
}

/// `n` with one more child, reached by `mv`, numbered after the others.
pub open spec fn with_child(n: NodeModel, mv: MoveModel, fen: Seq<char>) -> NodeModel {
    NodeModel { children: n.children.push(leaf(n.children.len() as usize, Some(mv), fen)), ..n }
}

pub open spec fn with_comment(n: NodeModel, c: Seq<char>) -> NodeModel {
    NodeModel { comments: n.comments.push(c), ..n }
}

/// The node that `path` leads to from `n`; the walk stops at the first index that
/// names no child.
pub open spec fn node_at(n: NodeModel, path: Seq<usize>) -> NodeModel
    decreases path.len(),
{
    if path.len() > 0 && path[0] < n.children.len() {
        node_at(n.children[path[0] as int], path.drop_first())
    } else {
        n
    }
}

/// Index of the first child whose move has the given UCI text, or -1.
pub open spec fn child_with_uci(cs: Seq<NodeModel>, uci: Seq<char>) -> int
    decreases cs.len(),
{
    if cs.len() == 0 {
        -1
    } else if cs[0].mv is Some && cs[0].mv->0.uci == uci {
        0
    } else {
        let r = child_with_uci(cs.drop_first(), uci);
        if r < 0 {
            -1
        } else {
            r + 1
        }
    }
}

/// `n` with a child added, by `mv`, at the node that `path` leads to.
pub open spec fn add_child_at(n: NodeModel, path: Seq<usize>, mv: MoveModel, fen: Seq<char>) -> NodeModel
    decreases path.len(),
{
    if path.len() > 0 && path[0] < n.children.len() {
        NodeModel {
            children: n.children.update(
                path[0] as int,
                add_child_at(n.children[path[0] as int], path.drop_first(), mv, fen),
            ),
            ..n
        }
    } else {
        with_child(n, mv, fen)
    }
}

/// `n` with a comment added at the node that `path` leads to.
pub open spec fn add_comment_at(n: NodeModel, path: Seq<usize>, c: Seq<char>) -> NodeModel
    decreases path.len(),
{
    if path.len() > 0 && path[0] < n.children.len() {
        NodeModel {
            children: n.children.update(
                path[0] as int,
                add_comment_at(n.children[path[0] as int], path.drop_first(), c),
            ),
            ..n
        }
    } else {
        with_comment(n, c)
    }
}

/// The move text a child adds to a line: its SAN, where it has a move.
pub open spec fn line_head(c: NodeModel) -> Seq<Seq<char>> {
    match c.mv {
        Some(m) => seq![m.san],
        None => Seq::empty(),
    }
}

/// Every line of moves from `n` to a leaf, children in order; a leaf has one empty
/// line.
pub open spec fn lines_of(n: NodeModel) -> Seq<Seq<Seq<char>>>
    decreases n, n.children.len() + 1,
{
    let all = lines_below(n, n.children.len() as int);
    if all.len() == 0 {
        seq![Seq::empty()]
    } else {
        all
    }
}

/// The lines through the first `k` children of `n`.
pub open spec fn lines_below(n: NodeModel, k: int) -> Seq<Seq<Seq<char>>>
    decreases n, k,
{
    if k <= 0 || k > n.children.len() {
        Seq::empty()
    } else {
        let c = n.children[k - 1];
        lines_below(n, k - 1) + lines_of(c).map_values(|l: Seq<Seq<char>>| line_head(c) + l)
    }
}

impl StudyNode {
    pub fn new_root(fen: String) -> (r: StudyNode)
        ensures
            r@ == leaf(0, None, fen@),
    {
        let r = StudyNode { id: 0, move_record: None, fen, comments: Vec::new(), children: Vec::new() };
        assert(r@.comments =~= Seq::<Seq<char>>::empty());
        assert(r@.children =~= Seq::<NodeModel>::empty());
        r
    }

    pub fn new_child(id: usize, move_record: MoveRecord, fen: String) -> (r: StudyNode)
        ensures
            r@ == leaf(id, Some(move_record@), fen@),
    {
        let r = StudyNode {
            id,
            move_record: Some(move_record),
            fen,
            comments: Vec::new(),
            children: Vec::new(),
        };
        assert(r@.comments =~= Seq::<Seq<char>>::empty());
        assert(r@.children =~= Seq::<NodeModel>::empty());
        r
    }

    /// Adds a child and returns its index.
    pub fn add_child(&mut self, move_record: MoveRecord, fen: String) -> (r: usize)
        ensures
            r == old(self)@.children.len(),
            final(self)@ == with_child(old(self)@, move_record@, fen@),
    {
        let id = self.children.len();
        let ghost before = self@;
        self.children.push(StudyNode::new_child(id, move_record, fen));
        assert(self@.children =~= before.children.push(leaf(id, Some(move_record@), fen@)));
        id
    }

    /// Every line of moves from this node to a leaf.
    pub fn get_lines(&self) -> (r: Vec<Vec<String>>)
        ensures
            r.deep_view() == lines_of(self@),
    {
        self.get_lines_recursive()
    }

    fn get_lines_recursive(&self) -> (r: Vec<Vec<String>>)
        ensures
            r.deep_view() == lines_of(self@),
        decreases self,
    {
        let ghost me = self@;
        let n = self.children.len();
        let mut lines: Vec<Vec<String>> = Vec::new();
        let mut k: usize = 0;
        assert(lines.deep_view() =~= lines_below(me, 0));
        while k < n
            invariant
                n == self.children.len(),
                me == self@,
                k <= n,
                lines.deep_view() == lines_below(me, k as int),
            decreases n - k,
        {
            let child = &self.children[k];
            assert(me.children[k as int] == child@);
            let mut below = child.get_lines_recursive();
            let ghost bl = below.deep_view();
            let ghost start = lines.deep_view();
            let ghost head = line_head(child@);
            let m = below.len();
            let mut j: usize = 0;
            while j < m
                invariant
                    m == bl.len(),
                    j <= m,
                    below.len() == m - j,
                    below.deep_view() == bl.subrange(j as int, m as int),
                    head == line_head(child@),
                    lines.deep_view() == start + bl.subrange(0, j as int).map_values(
                        |l: Seq<Seq<char>>| head + l,
                    ),
                decreases m - j,
            {
                let ghost pre = below.deep_view();
                let ghost prev = below@;
                let mut line = below.remove(0);
                assert(pre[0] == prev[0].deep_view());
                assert(pre[0] == line.deep_view());
                assert(below@ =~= prev.subrange(1, prev.len() as int));
                assert forall|i: int| 0 <= i < below.len() implies below.deep_view()[i] == pre[i + 1] by {
                    assert(below@[i] == prev[i + 1]);
                }
                assert(below.deep_view() =~= bl.subrange(j as int + 1, m as int));
                let ghost lv = line.deep_view();
                match &child.move_record {
                    Some(mv) => {
                        line.insert(0, mv.san.clone());
                        assert(line.deep_view() =~= head + lv);
                    },
                    None => {
                        assert(line.deep_view() =~= head + lv);
                    },
                }
                let ghost before = lines.deep_view();
                lines.push(line);
                assert(lines.deep_view() =~= before.push(head + lv));
                assert(bl.subrange(0, j as int + 1) =~= bl.subrange(0, j as int).push(lv));
                assert(bl.subrange(0, j as int + 1).map_values(|l: Seq<Seq<char>>| head + l)
                    =~= bl.subrange(0, j as int).map_values(|l: Seq<Seq<char>>| head + l).push(
                    head + lv,
                ));
                j = j + 1;
            }
            assert(bl.subrange(0, m as int) =~= bl);
            assert(lines.deep_view() =~= lines_below(me, k as int + 1));
            k = k + 1;
        }
        if lines.len() == 0 {
            let empty: Vec<String> = Vec::new();
            assert(empty.deep_view() =~= Seq::<Seq<char>>::empty());
            let ghost before = lines.deep_view();
            lines.push(empty);
            assert(lines.deep_view() =~= before.push(Seq::<Seq<char>>::empty()));
            assert(lines.deep_view() =~= seq![Seq::<Seq<char>>::empty()]);
        }
        lines
    }
}

/// Adds a child at the node that `path[k..]` leads to from `node`; returns the
/// child's index.
fn add_child_along(
    node: &mut StudyNode,
    path: &Vec<usize>,
    k: usize,
    move_record: MoveRecord,
    fen: String,
) -> (r: usize)
    requires
        k <= path.len(),
    ensures
        final(node)@ == add_child_at(
            old(node)@,
            path@.subrange(k as int, path.len() as int),
            move_record@,
            fen@,
        ),
        r == node_at(old(node)@, path@.subrange(k as int, path.len() as int)).children.len(),
    decreases path.len() - k,
{
    let ghost rest = path@.subrange(k as int, path.len() as int);
    if k < path.len() && path[k] < node.children.len() {
        let idx = path[k];
        assert(rest[0] == idx);
        assert(rest.drop_first() =~= path@.subrange(k as int + 1, path.len() as int));
        let ghost before = node@;
        let mut child = node.children.remove(idx);
        assert(child@ == before.children[idx as int]);
        let r = add_child_along(&mut child, path, k + 1, move_record, fen);
        let ghost updated = child@;
        node.children.insert(idx, child);
        assert(node@.children =~= before.children.update(idx as int, updated));
        r
    } else {
        node.add_child(move_record, fen)
    }
}

/// Adds a comment at the node that `path[k..]` leads to from `node`.
fn add_comment_along(node: &mut StudyNode, path: &Vec<usize>, k: usize, comment: String)
    requires
        k <= path.len(),
    ensures
        final(node)@ == add_comment_at(
            old(node)@,
            path@.subrange(k as int, path.len() as int),
            comment@,
        ),
    decreases path.len() - k,
{
    let ghost rest = path@.subrange(k as int, path.len() as int);
    if k < path.len() && path[k] < node.children.len() {
        let idx = path[k];
        assert(rest[0] == idx);
        assert(rest.drop_first() =~= path@.subrange(k as int + 1, path.len() as int));
        let ghost before = node@;
        let mut child = node.children.remove(idx);
        assert(child@ == before.children[idx as int]);
        add_comment_along(&mut child, path, k + 1, comment);
        let ghost updated = child@;
        node.children.insert(idx, child);
        assert(node@.children =~= before.children.update(idx as int, updated));
    } else {
        let ghost before = node@;
        let ghost c = comment@;
        node.comments.push(comment);
        assert(node@.comments =~= before.comments.push(c));
        assert(node@.children =~= before.children);
    }
}

pub open spec fn start_fen() -> Seq<char> {
    "rnbqkbnr/pppppppp/8/8/8/8/PPPPPPPP/RNBQKBNR w KQkq - 0 1"@
}

/// The last of the longest lines; empty where there are none.
pub open spec fn longest(ls: Seq<Seq<Seq<char>>>) -> Seq<Seq<char>>
    decreases ls.len(),
{
    if ls.len() == 0 {
        Seq::empty()
    } else if ls.len() == 1 {
        ls[0]
    } else {
        let b = longest(ls.drop_last());
        if ls.last().len() >= b.len() {
            ls.last()
        } else {
            b
        }
    }
}

/// A chapter of a study: a tree of positions and the path to the one shown.
#[derive(Debug)]
pub struct StudyChapter {
    pub id: usize,
    pub name: String,
    pub root: StudyNode,
    /// Child indices from the root to the current node.
    pub current_path: Vec<usize>,
}

impl StudyChapter {
    /// A chapter at the standard starting position.
    pub fn new(id: usize, name: String) -> (r: StudyChapter)
        ensures
            r.id == id,
            r.name@ == name@,
            r.root@ == leaf(0, None, start_fen()),
            r.current_path@.len() == 0,
    {
        StudyChapter {
            id,
            name,
            root: StudyNode::new_root(String::from_str(
                "rnbqkbnr/pppppppp/8/8/8/8/PPPPPPPP/RNBQKBNR w KQkq - 0 1",
            )),
            current_path: Vec::new(),
        }
    }

    /// The node the current path leads to.
    pub fn current_node(&self) -> (r: &StudyNode)
        ensures
            r@ == node_at(self.root@, self.current_path@),
    {
        let ghost path = self.current_path@;
        let n = self.current_path.len();
        let mut node = &self.root;
        let mut i: usize = 0;
        let mut stopped: bool = false;
        assert(path.subrange(0, n as int) =~= path);
        while i < n && !stopped
            invariant
                n == path.len(),
                path == self.current_path@,
                i <= n,
                node_at(self.root@, path) == node_at(node@, path.subrange(i as int, n as int)),
                stopped ==> i < n && path[i as int] >= node@.children.len(),
            decreases n - i + if stopped {
                0int
            } else {
                1int
            },
        {
            let idx = self.current_path[i];
            assert(path.subrange(i as int, n as int)[0] == idx);
            if idx < node.children.len() {
                assert(path.subrange(i as int, n as int).drop_first() =~= path.subrange(
                    i as int + 1,
                    n as int,
                ));
                assert(node@.children[idx as int] == node.children[idx as int]@);
                node = &node.children[idx];
                i = i + 1;
            } else {
                stopped = true;
            }
        }
        proof {
            if stopped {
                assert(path.subrange(i as int, n as int)[0] == path[i as int]);
            }
        }
        node
    }

    /// Steps back to the parent; false at the root.
    pub fn go_back(&mut self) -> (r: bool)
        ensures
            r == (old(self).current_path@.len() > 0),
            final(self).current_path@ == if r {
                old(self).current_path@.drop_last()
            } else {
                old(self).current_path@
            },
            final(self).root@ == old(self).root@,
            final(self).id == old(self).id,
            final(self).name@ == old(self).name@,
    {
        if self.current_path.len() == 0 {
            false
        } else {
            self.current_path.pop();
            assert(self.current_path@ =~= old(self).current_path@.drop_last());
            true
        }
    }

    /// Steps to child `child_idx` of the current node, where it exists.
    pub fn go_to_child(&mut self, child_idx: usize) -> (r: bool)
        ensures
            r == (child_idx < node_at(old(self).root@, old(self).current_path@).children.len()),
            final(self).current_path@ == if r {
                old(self).current_path@.push(child_idx)
            } else {
                old(self).current_path@
            },
            final(self).root@ == old(self).root@,
            final(self).id == old(self).id,
            final(self).name@ == old(self).name@,
    {
        let count = self.current_node().children.len();
        if child_idx < count {
            self.current_path.push(child_idx);
            true
        } else {
            false
        }
    }

    /// Plays `move_record` at the current node. Where a child with the same UCI
    /// move exists, steps to it and returns false; else adds a child, steps to it and
    /// returns true.
    pub fn add_move(&mut self, move_record: MoveRecord, fen: String) -> (r: bool)
        ensures
            ({
                let cur = node_at(old(self).root@, old(self).current_path@);
                let k = child_with_uci(cur.children, move_record@.uci);
                &&& r == (k < 0)
                &&& final(self).root@ == if r {
                    add_child_at(old(self).root@, old(self).current_path@, move_record@, fen@)
                } else {
                    old(self).root@
                }
                &&& final(self).current_path@ == old(self).current_path@.push(
                    if r {
                        cur.children.len() as usize
                    } else {
                        k as usize
                    },
                )
            }),
            final(self).id == old(self).id,
            final(self).name@ == old(self).name@,
    {
        let ghost cur = node_at(self.root@, self.current_path@);
        let current = self.current_node();
        let n = current.children.len();
        let ghost cs = cur.children;
        let mut i: usize = 0;
        assert(cs.subrange(0, n as int) =~= cs);
        while i < n
            invariant
                n == cs.len(),
                i <= n,
                cs == current@.children,
                current@ == cur,
                cur == node_at(old(self).root@, old(self).current_path@),
                self.root@ == old(self).root@,
                self.current_path@ == old(self).current_path@,
                self.id == old(self).id,
                self.name@ == old(self).name@,
                child_with_uci(cs, move_record@.uci) == (if child_with_uci(
                    cs.subrange(i as int, n as int),
                    move_record@.uci,
                ) < 0 {
                    -1
                } else {
                    i + child_with_uci(cs.subrange(i as int, n as int), move_record@.uci)
                }),
            decreases n - i,
        {
            assert(cs.subrange(i as int, n as int)[0] == cs[i as int]);
            assert(cs[i as int] == current.children[i as int]@);
            let found = match &current.children[i].move_record {
                Some(m) => m.uci == move_record.uci,
                None => false,
            };
            if found {
                assert(child_with_uci(cs.subrange(i as int, n as int), move_record@.uci) == 0);
                self.current_path.push(i);
                return false;
            }
            assert(cs.subrange(i as int, n as int).drop_first() =~= cs.subrange(
                i as int + 1,
                n as int,
            ));
            i = i + 1;
        }
        assert(cs.subrange(n as int, n as int).len() == 0);
        let path = &self.current_path;
        assert(path@.subrange(0, path.len() as int) =~= path@);
        let ghost p = self.current_path@;
        let mut root = StudyNode::new_root(String::new());
        std::mem::swap(&mut root, &mut self.root);
        let id = add_child_along(&mut root, &self.current_path, 0, move_record, fen);
        self.root = root;
        self.current_path.push(id);
        true
    }

    /// Adds a comment to the current node.
    pub fn add_comment(&mut self, comment: String)
        ensures
            final(self).root@ == add_comment_at(old(self).root@, old(self).current_path@, comment@),
            final(self).current_path@ == old(self).current_path@,
            final(self).id == old(self).id,
            final(self).name@ == old(self).name@,
    {
        assert(self.current_path@.subrange(0, self.current_path.len() as int) =~= self.current_path@);
        let mut root = StudyNode::new_root(String::new());
        std::mem::swap(&mut root, &mut self.root);
        add_comment_along(&mut root, &self.current_path, 0, comment);
        self.root = root;
    }

    /// FEN of the current node.
    pub fn current_fen(&self) -> (r: &str)
        ensures
            r@ == node_at(self.root@, self.current_path@).fen,
    {
        self.current_node().fen.as_str()
    }

    /// The longest line of the chapter (the last of equally long ones).
    pub fn get_main_line(&self) -> (r: Vec<String>)
        ensures
            r.deep_view() == longest(lines_of(self.root@)),
    {
        let mut lines = self.root.get_lines();
        let ghost ls = lines.deep_view();
        let n = lines.len();
        if n == 0 {
            let r: Vec<String> = Vec::new();
            assert(r.deep_view() =~= Seq::<Seq<char>>::empty());
            return r;
        }
        let mut best: usize = 0;
        let mut i: usize = 1;
        assert(ls.subrange(0, 1).drop_last().len() == 0);
        while i < n
            invariant
                n == lines.len(),
                ls == lines.deep_view(),
                1 <= i <= n,
                best < i,
                longest(ls.subrange(0, i as int)) == ls[best as int],
            decreases n - i,
        {
            assert(ls.subrange(0, i as int + 1).drop_last() =~= ls.subrange(0, i as int));
            assert(ls[i as int] == lines[i as int].deep_view());
            assert(ls[best as int] == lines[best as int].deep_view());
            if lines[i].len() >= lines[best].len() {
                best = i;
            }
            i = i + 1;
        }
        assert(ls.subrange(0, n as int) =~= ls);
        assert(ls[best as int] == lines[best as int].deep_view());
        lines.remove(best)
    }

    pub fn go_to_start(&mut self)
        ensures
            final(self).current_path@.len() == 0,
            final(self).root@ == old(self).root@,
            final(self).id == old(self).id,
            final(self).name@ == old(self).name@,
    {
        self.current_path.clear();
    }

    pub fn can_go_back(&self) -> (r: bool)
        ensures
            r == (self.current_path@.len() > 0),
    {
        self.current_path.len() > 0
    }

    /// Whether the current node has child `child_idx`.
    pub fn can_go_forward(&self, child_idx: usize) -> (r: bool)
        ensures
            r == (child_idx < node_at(self.root@, self.current_path@).children.len()),
    {
        child_idx < self.current_node().children.len()
    }
}

/// A study: named chapters, one of them current.
#[derive(Debug)]
pub struct Study {
    pub id: String,
    pub name: String,
    pub chapters: Vec<StudyChapter>,
    pub current_chapter: usize,
    pub created_at: String,
    pub updated_at: String,
}

/// The date of an RFC 3339 timestamp: the text of its first ten bytes. Where those
/// do not end on a character boundary, or there are fewer, the whole text.
pub open spec fn date_part(s: Seq<char>) -> Seq<char> {
    let b = encode_utf8(s);
    if b.len() >= 10 && is_char_boundary(b, 10) {
        decode_utf8(b.subrange(0, 10))
    } else {
        s
    }
}

pub open spec fn pgn_header(name: Seq<char>, created_at: Seq<char>) -> Seq<char> {
    "[Event \""@ + name + "\"]\n"@ + "[Site \"Stockfish Chess\"]\n"@ + "[Date \""@ + date_part(
        created_at,
    ) + "\"]\n"@
}

/// The first `k` comments, each in braces.
pub open spec fn braced(cs: Seq<Seq<char>>, k: int) -> Seq<char>
    decreases k,
{
    if k <= 0 || k > cs.len() {
        Seq::empty()
    } else {
        braced(cs, k - 1) + "{ "@ + cs[k - 1] + " } "@
    }
}

pub open spec fn comments_text(cs: Seq<Seq<char>>) -> Seq<char> {
    if cs.len() == 0 {
        Seq::empty()
    } else {
        braced(cs, cs.len() as int) + "\n"@
    }
}

/// The move number that stands before the `i`-th move (0-based) of a line: one
/// before each white move.
pub open spec fn move_number(i: int) -> Seq<char> {
    if i % 2 == 0 {
        decimal((i / 2 + 1) as nat) + ". "@
    } else {
        Seq::empty()
    }
}

/// The first `k` moves of a line in PGN movetext.
pub open spec fn movetext(line: Seq<Seq<char>>, k: int) -> Seq<char>
    decreases k,
{
    if k <= 0 || k > line.len() {
        Seq::empty()
    } else {
        movetext(line, k - 1) + move_number(k - 1) + line[k - 1] + " "@
    }
}

pub open spec fn chapter_pgn(name: Seq<char>, root: NodeModel) -> Seq<char> {
    let main = longest(lines_of(root));
    "\n"@ + "[Chapter \""@ + name + "\"]\n"@ + comments_text(root.comments) + movetext(
        main,
        main.len() as int,
    ) + "*\n"@
}

/// The first `k` chapters in PGN.
pub open spec fn chapters_pgn(chs: Seq<StudyChapter>, k: int) -> Seq<char>
    decreases k,
{
    if k <= 0 || k > chs.len() {
        Seq::empty()
    } else {
        chapters_pgn(chs, k - 1) + chapter_pgn(chs[k - 1].name@, chs[k - 1].root@)
    }
}

/// The id of a study created at `millis`.
pub open spec fn study_id(millis: i64) -> Seq<char> {
    "study_"@ + signed_decimal(millis as int)
}

impl Study {
    /// A new study, created now, with one chapter.
    pub fn new(name: String) -> (r: Study)
        ensures
            r.name@ == name@,
            r.chapters@.len() == 1,
            r.chapters@[0].id == 0,
            r.chapters@[0].name@ == "Chapter 1"@,
            r.chapters@[0].root@ == leaf(0, None, start_fen()),
            r.chapters@[0].current_path@.len() == 0,
            r.current_chapter == 0,
            r.created_at@ == r.updated_at@,
            exists|millis: i64| r.id@ == #[trigger] study_id(millis),
    {
        let now = local_now_rfc3339();
        let millis = local_now_millis();
        Study::created(name, millis, now)
    }

    /// A new study with one chapter, created at `millis` since the epoch, which is
    /// `now` as RFC 3339 text.
    pub fn created(name: String, millis: i64, now: String) -> (r: Study)
        ensures
            r.id@ == study_id(millis),
            r.name@ == name@,
            r.chapters@.len() == 1,
            r.chapters@[0].id == 0,
            r.chapters@[0].name@ == "Chapter 1"@,
            r.chapters@[0].root@ == leaf(0, None, start_fen()),
            r.chapters@[0].current_path@.len() == 0,
            r.current_chapter == 0,
            r.created_at@ == now@,
            r.updated_at@ == now@,
    {
        let mut id = String::from_str("study_");
        id.append(i64_to_decimal(millis).as_str());
        let mut study = Study {
            id,
            name,
            chapters: Vec::new(),
            current_chapter: 0,
            created_at: now.clone(),
            updated_at: now,
        };
        study.add_chapter(String::from_str("Chapter 1"));
        study
    }

    /// Adds a chapter, makes it current and returns its index.
    pub fn add_chapter(&mut self, name: String) -> (r: usize)
        ensures
            r == old(self).chapters.len(),
            final(self).chapters@.len() == old(self).chapters@.len() + 1,
            final(self).chapters@.subrange(0, r as int) == old(self).chapters@,
            final(self).chapters@[r as int].id == r,
            final(self).chapters@[r as int].name@ == name@,
            final(self).chapters@[r as int].root@ == leaf(0, None, start_fen()),
            final(self).chapters@[r as int].current_path@.len() == 0,
            final(self).current_chapter == r,
            final(self).id == old(self).id,
            final(self).name == old(self).name,
            final(self).created_at == old(self).created_at,
            final(self).updated_at == old(self).updated_at,
    {
        let id = self.chapters.len();
        self.chapters.push(StudyChapter::new(id, name));
        assert(self.chapters@.subrange(0, id as int) =~= old(self).chapters@);
        self.current_chapter = id;
        id
    }

    pub fn current_chapter(&self) -> (r: &StudyChapter)
        requires
            self.current_chapter < self.chapters.len(),
        ensures
            *r == self.chapters@[self.current_chapter as int],
    {
        &self.chapters[self.current_chapter]
    }

    pub fn current_chapter_mut(&mut self) -> (r: &mut StudyChapter)
        requires
            old(self).current_chapter < old(self).chapters.len(),
        ensures
            *r == old(self).chapters@[old(self).current_chapter as int],
            final(self).chapters@ == old(self).chapters@.update(
                old(self).current_chapter as int,
                *final(r),
            ),
            final(self).current_chapter == old(self).current_chapter,
            final(self).id == old(self).id,
            final(self).name == old(self).name,
            final(self).created_at == old(self).created_at,
            final(self).updated_at == old(self).updated_at,
    {
        &mut self.chapters[self.current_chapter]
    }

    /// Makes chapter `idx` current, where it exists.
    pub fn switch_chapter(&mut self, idx: usize) -> (r: bool)
        ensures
            r == (idx < old(self).chapters.len()),
            final(self).current_chapter == if r {
                idx
            } else {
                old(self).current_chapter
            },
            final(self).chapters@ == old(self).chapters@,
            final(self).id == old(self).id,
            final(self).name == old(self).name,
            final(self).created_at == old(self).created_at,
            final(self).updated_at == old(self).updated_at,
    {
        if idx < self.chapters.len() {
            self.current_chapter = idx;
            true
        } else {
            false
        }
    }

    /// Sets the time of the last change to now.
    pub fn update_timestamp(&mut self)
        ensures
            final(self).chapters@ == old(self).chapters@,
            final(self).current_chapter == old(self).current_chapter,
            final(self).id == old(self).id,
            final(self).name == old(self).name,
            final(self).created_at == old(self).created_at,
    {
        self.updated_at = local_now_rfc3339();
    }

    /// The study in PGN: a header, then each chapter with the comments of its
    /// starting position and its main line.
    pub fn to_pgn(&self) -> (r: String)
        ensures
            r@ == pgn_header(self.name@, self.created_at@) + chapters_pgn(
                self.chapters@,
                self.chapters@.len() as int,
            ),
    {
        let mut pgn = String::from_str("[Event \"");
        pgn.append(self.name.as_str());
        pgn.append("\"]\n");
        pgn.append("[Site \"Stockfish Chess\"]\n");
        pgn.append("[Date \"");
        let created = self.created_at.as_str();
        assert(created.spec_bytes() == encode_utf8(created@));
        let date = if created.as_bytes().len() >= 10 && created.is_char_boundary(10) {
            let (head, _) = created.split_at(10);
            proof {
                encode_utf8_decode_utf8(head@);
                assert(head.spec_bytes() == encode_utf8(head@));
                assert(created.spec_bytes() == encode_utf8(created@));
                assert(encode_utf8(head@) =~= encode_utf8(created@).subrange(0, 10));
            }
            head
        } else {
            created
        };
        assert(date@ == date_part(created@));
        pgn.append(date);
        pgn.append("\"]\n");
        let ghost head = pgn@;
        assert(head =~= pgn_header(self.name@, self.created_at@));
        let n = self.chapters.len();
        let mut k: usize = 0;
        while k < n
            invariant
                n == self.chapters.len(),
                k <= n,
                pgn@ == head + chapters_pgn(self.chapters@, k as int),
            decreases n - k,
        {
            let chapter = &self.chapters[k];
            let text = chapter_text(chapter);
            pgn.append(text.as_str());
            assert(pgn@ =~= head + chapters_pgn(self.chapters@, k as int + 1));
            k = k + 1;
        }
        pgn
    }
}

impl Default for Study {
    fn default() -> (r: Study)
        ensures
            r.name@ == "Untitled Study"@,
            r.chapters@.len() == 1,
            r.current_chapter == 0,
    {
        Study::new(String::from_str("Untitled Study"))
    }
}

fn chapter_text(chapter: &StudyChapter) -> (r: String)
    ensures
        r@ == chapter_pgn(chapter.name@, chapter.root@),
{
    let mut s = String::from_str("\n");
    s.append("[Chapter \"");
    s.append(chapter.name.as_str());
    s.append("\"]\n");
    let ghost start = s@;
    let comments = &chapter.root.comments;
    let ghost cs = comments.deep_view();
    assert(cs == chapter.root@.comments);
    if comments.len() > 0 {
        let mut i: usize = 0;
        while i < comments.len()
            invariant
                i <= comments.len(),
                cs == comments.deep_view(),
                s@ == start + braced(cs, i as int),
            decreases comments.len() - i,
        {
            assert(cs[i as int] == comments[i as int]@);
            s.append("{ ");
            s.append(comments[i].as_str());
            s.append(" } ");
            assert(s@ =~= start + braced(cs, i as int + 1));
            i = i + 1;
        }
        s.append("\n");
    }
    assert(s@ =~= start + comments_text(cs));
    let ghost mid = s@;
    let line = chapter.get_main_line();
    let ghost lv = line.deep_view();
    let m = line.len();
    let mut i: usize = 0;
    while i < m
        invariant
            m == line.len(),
            lv == line.deep_view(),
            i <= m,
            s@ == mid + movetext(lv, i as int),
        decreases m - i,
    {
        let ghost before = s@;
        if i % 2 == 0 {
            s.append(u64_to_decimal((i / 2 + 1) as u64).as_str());
            s.append(". ");
        }
        assert(s@ == before + move_number(i as int));
        assert(lv[i as int] == line[i as int]@);
        s.append(line[i].as_str());
        s.append(" ");
        assert(s@ =~= mid + movetext(lv, i as int + 1));
        i = i + 1;
    }
    s.append("*\n");
    assert(s@ =~= chapter_pgn(chapter.name@, chapter.root@));
    s
}

} // verus!
