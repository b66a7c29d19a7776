//! Prefix tree over dot/dash sequences.
//!
//! The trie is an arena of nodes; each node has at most two outgoing
//! transitions (dot and dash) that reference other nodes by index, and
//! an optional terminal character. Index 0 is the root, so a stored
//! index of 0 means "no transition".

use vstd::prelude::*;
use crate::patterns::get_morse_pattern;
use crate::patterns::is_terminal_byte;
use crate::patterns::lemma_pattern_wf;
use crate::patterns::pattern_spec;
use crate::types::MorseElementType;

verus! {

/// One arena node of the trie.
#[derive(Clone, Copy, PartialEq, Eq, Structural, Debug)]
pub struct TrieNode {
    /// Index of the node reached on a dot; 0 means no transition.
    pub next_dot: u16,
    /// Index of the node reached on a dash; 0 means no transition.
    pub next_dash: u16,
    /// The character this node completes, if any.
    pub terminal: Option<u8>,
}

impl TrieNode {
    /// A fresh node with no transitions and no terminal.
    pub fn new() -> (n: TrieNode)
        ensures
            n.next_dot == 0,
            n.next_dash == 0,
            n.terminal is None,
    {
        TrieNode { next_dot: 0, next_dash: 0, terminal: None }
    }
}

/// Largest number of nodes the arena may hold, so that every index
/// fits in a `u16`.
pub const TRIE_CAPACITY: usize = 65536;

/// Prefix tree over dot/dash sequences, stored as an arena.
pub struct MorseTrie {
    nodes: Vec<TrieNode>,
}

impl MorseTrie {
    /// The nodes of the arena, for specifications.
    pub closed spec fn nodes_seq(self) -> Seq<TrieNode> {
        self.nodes@
    }

    /// A structurally sound trie: the root exists, every stored index
    /// stays inside the arena, and every terminal is a canonical table
    /// character.
    pub open spec fn wf(self) -> bool {
        &&& 1 <= self.nodes_seq().len() <= TRIE_CAPACITY
        &&& forall|i: int|
            0 <= i < self.nodes_seq().len() ==> {
                &&& (#[trigger] self.nodes_seq()[i]).next_dot < self.nodes_seq().len()
                &&& self.nodes_seq()[i].next_dash < self.nodes_seq().len()
                &&& (self.nodes_seq()[i].terminal matches Some(t) ==> is_terminal_byte(t))
            }
    }

    /// One spec-level transition from node `from`.
    pub open spec fn step_spec(self, from: int, e: MorseElementType) -> Option<int> {
        match e {
            MorseElementType::Dot => if self.nodes_seq()[from].next_dot > 0 {
                Some(self.nodes_seq()[from].next_dot as int)
            } else {
                None
            },
            MorseElementType::Dash => if self.nodes_seq()[from].next_dash > 0 {
                Some(self.nodes_seq()[from].next_dash as int)
            } else {
                None
            },
            MorseElementType::Gap => None,
        }
    }

    /// The node reached from `from` along the whole sequence `p`, if
    /// every transition exists.
    pub open spec fn walk_spec(self, from: int, p: Seq<MorseElementType>) -> Option<int>
        decreases p.len(),
    {
        if p.len() == 0 {
            Some(from)
        } else {
            match self.walk_spec(from, p.drop_last()) {
                Some(n) => self.step_spec(n, p.last()),
                None => None,
            }
        }
    }

    /// The terminal character stored at an index, if the index is in
    /// range and the node has one.
    pub open spec fn terminal_spec(self, node_idx: u16) -> Option<u8> {
        if node_idx < self.nodes_seq().len() {
            self.nodes_seq()[node_idx as int].terminal
        } else {
            None
        }
    }

    /// The trie covers a character: walking its pattern from the root
    /// succeeds and ends at a node that completes some character.
    pub open spec fn covers(self, ch: u8) -> bool {
        let p = pattern_spec(ch).unwrap();
        &&& self.walk_spec(0, p) is Some
        &&& self.terminal_spec(self.walk_spec(0, p).unwrap() as u16) is Some
    }

    /// The trie resolves a character: walking its pattern from the root
    /// reaches a node whose terminal carries exactly that dot/dash
    /// sequence, and a letter whenever the character is a letter (a
    /// sequence shared between a symbol and a letter resolves to the
    /// letter, the construction's tie-breaking policy).
    pub open spec fn resolves(self, ch: u8) -> bool {
        let p = pattern_spec(ch).unwrap();
        &&& self.walk_spec(0, p) is Some
        &&& exists|tc: u8|
            {
                &&& #[trigger] pattern_spec(tc) == pattern_spec(ch)
                &&& is_terminal_byte(tc)
                &&& self.terminal_spec(self.walk_spec(0, p).unwrap() as u16) == Some(tc)
                &&& (65 <= ch <= 90 ==> 65 <= tc <= 90)
            }
    }
}

/// Every stored transition points strictly forward in the arena, so
/// walks never revisit a node and the trie is acyclic.
pub open spec fn links_increasing(t: MorseTrie) -> bool {
    forall|i: int|
        0 <= i < t.nodes_seq().len() ==> {
            &&& ((#[trigger] t.nodes_seq()[i]).next_dot == 0 || t.nodes_seq()[i].next_dot > i)
            &&& (t.nodes_seq()[i].next_dash == 0 || t.nodes_seq()[i].next_dash > i)
        }
}

/// No node is the target of two different transitions, so every node
/// is reached by at most one dot/dash sequence.
pub open spec fn unique_parents(t: MorseTrie) -> bool {
    forall|a: int, b: int, e1: MorseElementType, e2: MorseElementType|
        0 <= a < t.nodes_seq().len() && 0 <= b < t.nodes_seq().len() && #[trigger] t.step_spec(
            a,
            e1,
        ) is Some && #[trigger] t.step_spec(b, e2) is Some && t.step_spec(a, e1) == t.step_spec(
            b,
            e2,
        ) ==> a == b && e1 == e2
}

/// In an acyclic trie, a non-empty walk strictly increases the node
/// index.
pub proof fn lemma_walk_increases(t: MorseTrie, from: int, p: Seq<MorseElementType>)
    requires
        t.wf(),
        links_increasing(t),
        0 <= from < t.nodes_seq().len(),
        t.walk_spec(from, p) is Some,
        p.len() > 0,
    ensures
        t.walk_spec(from, p).unwrap() > from,
    decreases p.len(),
{
    lemma_walk_in_range(t, from, p.drop_last());
    let m = t.walk_spec(from, p.drop_last()).unwrap();
    if p.len() > 1 {
        lemma_walk_increases(t, from, p.drop_last());
    }
}

/// In an acyclic trie with unique parents, distinct dot/dash sequences
/// reach distinct nodes: the walk from the root is injective.
pub proof fn lemma_walk_injective(
    t: MorseTrie,
    p1: Seq<MorseElementType>,
    p2: Seq<MorseElementType>,
)
    requires
        t.wf(),
        links_increasing(t),
        unique_parents(t),
        t.walk_spec(0, p1) is Some,
        t.walk_spec(0, p2) is Some,
        t.walk_spec(0, p1) == t.walk_spec(0, p2),
    ensures
        p1 == p2,
    decreases p1.len() + p2.len(),
{
    if p1.len() == 0 {
        if p2.len() > 0 {
            lemma_walk_increases(t, 0, p2);
        }
        assert(p1 =~= p2);
    } else if p2.len() == 0 {
        lemma_walk_increases(t, 0, p1);
    } else {
        lemma_walk_in_range(t, 0, p1.drop_last());
        lemma_walk_in_range(t, 0, p2.drop_last());
        let m1 = t.walk_spec(0, p1.drop_last()).unwrap();
        let m2 = t.walk_spec(0, p2.drop_last()).unwrap();
        assert(t.step_spec(m1, p1.last()) == t.step_spec(m2, p2.last()));
        assert(m1 == m2 && p1.last() == p2.last());
        lemma_walk_injective(t, p1.drop_last(), p2.drop_last());
        assert(p1 =~= p1.drop_last().push(p1.last()));
        assert(p2 =~= p2.drop_last().push(p2.last()));
    }
}

/// Appending a fresh node and linking one previously absent transition
/// of `cur` to it keeps the arena acyclic and its parents unique.
proof fn lemma_extend_link(t1: MorseTrie, t2: MorseTrie, cur: int, e: MorseElementType)
    requires
        t1.wf(),
        links_increasing(t1),
        unique_parents(t1),
        0 <= cur < t1.nodes_seq().len(),
        e != MorseElementType::Gap,
        t1.step_spec(cur, e) is None,
        t2.nodes_seq().len() == t1.nodes_seq().len() + 1,
        forall|i: int|
            0 <= i < t1.nodes_seq().len() && i != cur ==> #[trigger] t2.nodes_seq()[i]
                == t1.nodes_seq()[i],
        e == MorseElementType::Dot ==> t2.nodes_seq()[cur].next_dot == t1.nodes_seq().len()
            && t2.nodes_seq()[cur].next_dash == t1.nodes_seq()[cur].next_dash,
        e == MorseElementType::Dash ==> t2.nodes_seq()[cur].next_dash == t1.nodes_seq().len()
            && t2.nodes_seq()[cur].next_dot == t1.nodes_seq()[cur].next_dot,
        t2.nodes_seq()[t1.nodes_seq().len() as int].next_dot == 0,
        t2.nodes_seq()[t1.nodes_seq().len() as int].next_dash == 0,
    ensures
        links_increasing(t2),
        unique_parents(t2),
{
    let n = t1.nodes_seq().len() as int;
    assert forall|i: int|
        0 <= i < t2.nodes_seq().len() implies {
        &&& ((#[trigger] t2.nodes_seq()[i]).next_dot == 0 || t2.nodes_seq()[i].next_dot > i)
        &&& (t2.nodes_seq()[i].next_dash == 0 || t2.nodes_seq()[i].next_dash > i)
    } by {
        if i < n && i != cur {
            assert(t2.nodes_seq()[i] == t1.nodes_seq()[i]);
        }
    }
    assert forall|a: int, e1: MorseElementType|
        0 <= a < t2.nodes_seq().len() && #[trigger] t2.step_spec(a, e1) is Some && !(a == cur && e1
            == e) implies a < n && t2.step_spec(a, e1) == t1.step_spec(a, e1) && t1.step_spec(
        a,
        e1,
    ).unwrap() < n by {
        if a == n {
            assert(t2.step_spec(a, e1) is None);
        } else if a != cur {
            assert(t2.nodes_seq()[a] == t1.nodes_seq()[a]);
        }
    }
    assert forall|a: int, b: int, e1: MorseElementType, e2: MorseElementType|
        0 <= a < t2.nodes_seq().len() && 0 <= b < t2.nodes_seq().len() && #[trigger] t2.step_spec(
            a,
            e1,
        ) is Some && #[trigger] t2.step_spec(b, e2) is Some && t2.step_spec(a, e1) == t2.step_spec(
        b,
        e2,
    ) implies a == b && e1 == e2 by {
        if a == cur && e1 == e {
            assert(t2.step_spec(a, e1) == Some(n));
            if !(b == cur && e2 == e) {
                assert(t1.step_spec(b, e2).unwrap() < n);
            }
        } else if b == cur && e2 == e {
            assert(t2.step_spec(b, e2) == Some(n));
            assert(t1.step_spec(a, e1).unwrap() < n);
        } else {
            assert(t1.step_spec(a, e1) == t1.step_spec(b, e2));
        }
    }
}

/// A walk that starts in range stays in range.
pub proof fn lemma_walk_in_range(t: MorseTrie, from: int, p: Seq<MorseElementType>)
    requires
        t.wf(),
        0 <= from < t.nodes_seq().len(),
        t.walk_spec(from, p) is Some,
    ensures
        0 <= t.walk_spec(from, p).unwrap() < t.nodes_seq().len(),
    decreases p.len(),
{
    if p.len() > 0 {
        lemma_walk_in_range(t, from, p.drop_last());
    }
}

/// `t2` extends `t1`: old nodes keep their links except that absent
/// links may now point at appended nodes.
pub open spec fn trie_extends(t2: MorseTrie, t1: MorseTrie) -> bool {
    &&& t1.nodes_seq().len() <= t2.nodes_seq().len()
    &&& forall|i: int|
        0 <= i < t1.nodes_seq().len() ==> {
            &&& ((#[trigger] t2.nodes_seq()[i]).next_dot == t1.nodes_seq()[i].next_dot
                || (t1.nodes_seq()[i].next_dot == 0 && t2.nodes_seq()[i].next_dot
                >= t1.nodes_seq().len()))
            &&& (t2.nodes_seq()[i].next_dash == t1.nodes_seq()[i].next_dash
                || (t1.nodes_seq()[i].next_dash == 0 && t2.nodes_seq()[i].next_dash
                >= t1.nodes_seq().len()))
        }
}

/// Walks that existed before an extension still reach the same node.
pub proof fn lemma_walk_preserved(t1: MorseTrie, t2: MorseTrie, from: int, p: Seq<MorseElementType>)
    requires
        t1.wf(),
        trie_extends(t2, t1),
        0 <= from < t1.nodes_seq().len(),
        t1.walk_spec(from, p) is Some,
    ensures
        t2.walk_spec(from, p) == t1.walk_spec(from, p),
    decreases p.len(),
{
    if p.len() > 0 {
        lemma_walk_preserved(t1, t2, from, p.drop_last());
        lemma_walk_in_range(t1, from, p.drop_last());
        let n = t1.walk_spec(from, p.drop_last()).unwrap();
        assert(t2.step_spec(n, p.last()) == t1.step_spec(n, p.last()));
    }
}

impl MorseTrie {
    /// Follow one element from `node_idx`, if the transition exists.
    pub fn transition(&self, node_idx: u16, element: MorseElementType) -> (r: Option<u16>)
        requires
            self.wf(),
        ensures
            node_idx >= self.nodes_seq().len() ==> r is None,
            node_idx < self.nodes_seq().len() ==> match r {
                Some(n) => {
                    &&& self.step_spec(node_idx as int, element) == Some(n as int)
                    &&& 0 < n < self.nodes_seq().len()
                },
                None => self.step_spec(node_idx as int, element) is None,
            },
    {
        if node_idx as usize >= self.nodes.len() {
            return None;
        }
        let node = &self.nodes[node_idx as usize];
        match element {
            MorseElementType::Dot => {
                if node.next_dot > 0 {
                    Some(node.next_dot)
                } else {
                    None
                }
            },
            MorseElementType::Dash => {
                if node.next_dash > 0 {
                    Some(node.next_dash)
                } else {
                    None
                }
            },
            MorseElementType::Gap => None,
        }
    }

    /// The character completed at `node_idx`, if the node is terminal.
    pub fn get_terminal(&self, node_idx: u16) -> (r: Option<u8>)
        ensures
            r == self.terminal_spec(node_idx),
    {
        if node_idx as usize >= self.nodes.len() {
            return None;
        }
        self.nodes[node_idx as usize].terminal
    }

    /// Insert one dot/dash sequence, creating nodes as needed, and mark
    /// the final node with `terminal`.
    fn add_pattern(&mut self, pattern: &Vec<MorseElementType>, terminal: u8)
        requires
            old(self).wf(),
            links_increasing(*old(self)),
            unique_parents(*old(self)),
            is_terminal_byte(terminal),
            old(self).nodes_seq().len() + pattern@.len() <= TRIE_CAPACITY,
            forall|i: int| 0 <= i < pattern@.len() ==> pattern@[i] != MorseElementType::Gap,
        ensures
            final(self).wf(),
            links_increasing(*final(self)),
            unique_parents(*final(self)),
            trie_extends(*final(self), *old(self)),
            final(self).nodes_seq().len() <= old(self).nodes_seq().len() + pattern@.len(),
            final(self).walk_spec(0, pattern@) is Some,
            final(self).terminal_spec(final(self).walk_spec(0, pattern@).unwrap() as u16)
                == Some(terminal),
            forall|i: int|
                0 <= i < final(self).nodes_seq().len() && i != final(self).walk_spec(
                    0,
                    pattern@,
                ).unwrap() ==> #[trigger] final(self).nodes_seq()[i].terminal == (if i < old(
                    self,
                ).nodes_seq().len() {
                    old(self).nodes_seq()[i].terminal
                } else {
                    None::<u8>
                }),
            forall|q: Seq<MorseElementType>|
                old(self).walk_spec(0, q) is Some ==> #[trigger] final(self).walk_spec(0, q)
                    == old(self).walk_spec(0, q),
            forall|c: u8| old(self).covers(c) ==> #[trigger] final(self).covers(c),
    {
        let ghost t0 = *self;
        proof {
            assert(pattern@.take(0) =~= Seq::<MorseElementType>::empty());
        }
        let mut current: usize = 0;
        let mut k: usize = 0;
        while k < pattern.len()
            invariant
                self.wf(),
                links_increasing(*self),
                unique_parents(*self),
                t0.wf(),
                trie_extends(*self, t0),
                k <= pattern@.len(),
                self.nodes_seq().len() <= t0.nodes_seq().len() + k,
                t0.nodes_seq().len() + pattern@.len() <= TRIE_CAPACITY,
                forall|i: int| 0 <= i < pattern@.len() ==> pattern@[i] != MorseElementType::Gap,
                0 <= current < self.nodes_seq().len(),
                self.walk_spec(0, pattern@.take(k as int)) == Some(current as int),
                forall|i: int|
                    0 <= i < self.nodes_seq().len() ==> #[trigger] self.nodes_seq()[i].terminal
                        == (if i < t0.nodes_seq().len() {
                        t0.nodes_seq()[i].terminal
                    } else {
                        None::<u8>
                    }),
            decreases pattern@.len() - k,
        {
            let ghost t_before = *self;
            let element = pattern[k];
            let next_idx: usize = match element {
                MorseElementType::Dot => {
                    if self.nodes[current].next_dot == 0 {
                        self.nodes.push(TrieNode::new());
                        let new_idx = self.nodes.len() - 1;
                        let mut node = self.nodes[current];
                        node.next_dot = new_idx as u16;
                        self.nodes.set(current, node);
                        proof {
                            lemma_extend_link(
                                t_before,
                                *self,
                                current as int,
                                MorseElementType::Dot,
                            );
                        }
                        new_idx
                    } else {
                        self.nodes[current].next_dot as usize
                    }
                },
                MorseElementType::Dash => {
                    if self.nodes[current].next_dash == 0 {
                        self.nodes.push(TrieNode::new());
                        let new_idx = self.nodes.len() - 1;
                        let mut node = self.nodes[current];
                        node.next_dash = new_idx as u16;
                        self.nodes.set(current, node);
                        proof {
                            lemma_extend_link(
                                t_before,
                                *self,
                                current as int,
                                MorseElementType::Dash,
                            );
                        }
                        new_idx
                    } else {
                        self.nodes[current].next_dash as usize
                    }
                },
                MorseElementType::Gap => {
                    proof {
                        assert(false);
                    }
                    current
                },
            };
            proof {
                assert(trie_extends(*self, t_before));
                lemma_walk_preserved(t_before, *self, 0, pattern@.take(k as int));
                assert(pattern@.take(k as int + 1).drop_last() =~= pattern@.take(k as int));
                assert(pattern@.take(k as int + 1).last() == pattern@[k as int]);
                assert(self.step_spec(current as int, pattern@[k as int]) == Some(
                    next_idx as int,
                ));
            }
            current = next_idx;
            k = k + 1;
        }
        proof {
            assert(pattern@.take(pattern@.len() as int) =~= pattern@);
        }
        let ghost t_links = *self;
        let mut node = self.nodes[current];
        node.terminal = Some(terminal);
        self.nodes.set(current, node);
        proof {
            assert(trie_extends(*self, t_links));
            assert forall|i: int|
                0 <= i < self.nodes_seq().len() implies (#[trigger] self.nodes_seq()[i]).next_dot
                == t_links.nodes_seq()[i].next_dot && self.nodes_seq()[i].next_dash
                == t_links.nodes_seq()[i].next_dash by {
                if i != current {
                    assert(self.nodes_seq()[i] == t_links.nodes_seq()[i]);
                }
            }
            assert forall|a: int, f: MorseElementType|
                0 <= a < self.nodes_seq().len() implies #[trigger] self.step_spec(a, f)
                == t_links.step_spec(a, f) by {}
            assert(links_increasing(*self));
            assert(unique_parents(*self));
            lemma_walk_preserved(t_links, *self, 0, pattern@);
            let t0v = t0;
            let tf = *self;
            assert forall|q: Seq<MorseElementType>| t0v.walk_spec(0, q) is Some implies #[trigger] tf.walk_spec(0, q) == t0v.walk_spec(0, q) by {
                lemma_walk_preserved(t0v, t_links, 0, q);
                lemma_walk_preserved(t_links, tf, 0, q);
            }
            assert forall|c: u8| t0v.covers(c) implies #[trigger] tf.covers(c) by {
                let p = pattern_spec(c).unwrap();
                assert(tf.walk_spec(0, p) == t0v.walk_spec(0, p));
                lemma_walk_in_range(t0v, 0, p);
                let n = t0v.walk_spec(0, p).unwrap();
                assert(tf.terminal_spec(n as u16) is Some);
            }
        }
    }

    /// Build the trie from the whole pattern table. Characters without
    /// a letter form (digits, punctuation) are inserted first, then the
    /// upper-case letters, so a sequence shared between a symbol and a
    /// letter resolves to the letter. Every table character's pattern
    /// ends at a node whose terminal carries exactly that pattern.
    pub fn build() -> (t: MorseTrie)
        ensures
            t.wf(),
            links_increasing(t),
            forall|c: u8| is_terminal_byte(c) ==> #[trigger] t.covers(c),
            forall|c: u8| is_terminal_byte(c) ==> #[trigger] t.resolves(c),
    {
        let mut trie = MorseTrie { nodes: vec![TrieNode::new()] };
        proof {
            assert forall|a: int, b: int, e1: MorseElementType, e2: MorseElementType|
                0 <= a < trie.nodes_seq().len() && 0 <= b < trie.nodes_seq().len()
                    && #[trigger] trie.step_spec(a, e1) is Some && #[trigger] trie.step_spec(
                    b,
                    e2,
                ) is Some && trie.step_spec(a, e1) == trie.step_spec(b, e2) implies a == b && e1
                == e2 by {
                assert(trie.step_spec(a, e1) is None);
            }
        }

        let mut ch: usize = 0;
        while ch < 256
            invariant
                trie.wf(),
                links_increasing(trie),
                unique_parents(trie),
                ch <= 256,
                trie.nodes_seq().len() <= 1 + 7 * ch,
                forall|c: u8|
                    is_terminal_byte(c) && !(65 <= c <= 90) && (c as int) < ch
                        ==> #[trigger] trie.resolves(c),
            decreases 256 - ch,
        {
            let byte = ch as u8;
            let alphabetic = (65 <= byte && byte <= 90) || (97 <= byte && byte <= 122);
            if !alphabetic {
                if let Some(pattern) = get_morse_pattern(byte) {
                    proof {
                        lemma_pattern_wf(byte);
                    }
                    let ghost t_prev = trie;
                    trie.add_pattern(&pattern, byte);
                    proof {
                        lemma_walk_in_range(trie, 0, pattern@);
                        assert(trie.resolves(byte));
                        assert forall|c: u8|
                            is_terminal_byte(c) && !(65 <= c <= 90) && (c as int) < ch
                                && t_prev.resolves(c) implies #[trigger] trie.resolves(c) by {
                            lemma_resolution_preserved(t_prev, trie, c, pattern@, byte);
                        }
                    }
                }
            }
            ch = ch + 1;
        }

        let mut letter: usize = 65;
        while letter < 91
            invariant
                trie.wf(),
                links_increasing(trie),
                unique_parents(trie),
                65 <= letter <= 91,
                trie.nodes_seq().len() <= 1 + 7 * 256 + 7 * (letter - 65),
                forall|c: u8|
                    is_terminal_byte(c) && !(65 <= c <= 90) ==> #[trigger] trie.resolves(c),
                forall|c: u8|
                    65 <= c <= 90 && (c as int) < letter ==> #[trigger] trie.resolves(c),
            decreases 91 - letter,
        {
            let byte = letter as u8;
            if let Some(pattern) = get_morse_pattern(byte) {
                proof {
                    lemma_pattern_wf(byte);
                }
                let ghost t_prev = trie;
                trie.add_pattern(&pattern, byte);
                proof {
                    lemma_walk_in_range(trie, 0, pattern@);
                    assert(trie.resolves(byte));
                    assert forall|c: u8|
                        is_terminal_byte(c) && t_prev.resolves(c) implies #[trigger] trie.resolves(
                        c,
                    ) by {
                        lemma_resolution_preserved(t_prev, trie, c, pattern@, byte);
                    }
                }
            }
            letter = letter + 1;
        }

        proof {
            assert forall|c: u8| is_terminal_byte(c) implies #[trigger] trie.resolves(c) by {
                if 65 <= c <= 90 {
                    assert(trie.resolves(c));
                }
            }
            assert forall|c: u8| is_terminal_byte(c) implies #[trigger] trie.covers(c) by {
                assert(trie.resolves(c));
            }
        }
        trie
    }
}

/// An insertion preserves resolution: a character resolved before an
/// `add_pattern` call is still resolved after it — either its node was
/// untouched, or (when the new pattern is the same dot/dash sequence)
/// the newly inserted character took the terminal over, which is legal
/// because only letters overwrite and only along their own path.
proof fn lemma_resolution_preserved(
    t1: MorseTrie,
    t2: MorseTrie,
    c: u8,
    p_new: Seq<MorseElementType>,
    b_new: u8,
)
    requires
        t1.wf(),
        t2.wf(),
        links_increasing(t2),
        unique_parents(t2),
        is_terminal_byte(c),
        is_terminal_byte(b_new),
        65 <= c <= 90 ==> 65 <= b_new <= 90,
        pattern_spec(b_new) == Some(p_new),
        t1.nodes_seq().len() <= t2.nodes_seq().len(),
        t1.resolves(c),
        t2.walk_spec(0, p_new) is Some,
        t2.terminal_spec(t2.walk_spec(0, p_new).unwrap() as u16) == Some(b_new),
        forall|q: Seq<MorseElementType>|
            t1.walk_spec(0, q) is Some ==> #[trigger] t2.walk_spec(0, q) == t1.walk_spec(0, q),
        forall|i: int|
            0 <= i < t2.nodes_seq().len() && i != t2.walk_spec(0, p_new).unwrap()
                ==> #[trigger] t2.nodes_seq()[i].terminal == (if i < t1.nodes_seq().len() {
                t1.nodes_seq()[i].terminal
            } else {
                None::<u8>
            }),
    ensures
        t2.resolves(c),
{
    let p_c = pattern_spec(c).unwrap();
    assert(t2.walk_spec(0, p_c) == t1.walk_spec(0, p_c));
    let n_c = t1.walk_spec(0, p_c).unwrap();
    let n_new = t2.walk_spec(0, p_new).unwrap();
    lemma_walk_in_range(t1, 0, p_c);
    let tc = choose|tc: u8|
        {
            &&& #[trigger] pattern_spec(tc) == pattern_spec(c)
            &&& is_terminal_byte(tc)
            &&& t1.terminal_spec(n_c as u16) == Some(tc)
            &&& (65 <= c <= 90 ==> 65 <= tc <= 90)
        };
    assert(0 <= n_c < t1.nodes_seq().len());
    if n_c == n_new {
        lemma_walk_injective(t2, p_c, p_new);
        assert(pattern_spec(b_new) == pattern_spec(c));
        assert(t2.terminal_spec(n_c as u16) == Some(b_new));
    } else {
        assert(t2.nodes_seq()[n_c].terminal == t1.nodes_seq()[n_c].terminal);
        assert(t2.terminal_spec(n_c as u16) == Some(tc));
    }
}

/// Build the process-wide trie. Construction is cheap enough to run per
/// decode call, so no global cache is kept.
pub fn get_morse_trie() -> (t: MorseTrie)
    ensures
        t.wf(),
        links_increasing(t),
        forall|c: u8| is_terminal_byte(c) ==> #[trigger] t.covers(c),
        forall|c: u8| is_terminal_byte(c) ==> #[trigger] t.resolves(c),
{
    MorseTrie::build()
}

} // verus!
