//! The walk of `memory_tree_drill_down`.
//!
//! Drilling down from a summary node visits its descendants depth first,
//! down to `max_depth` levels below it: each child summary yields a hit and,
//! above the depth limit, queues its own children one level deeper; a
//! child chunk yields a hit; an id that points at nothing is skipped. The
//! walk takes the most recently queued node next. A depth of 0, a start
//! node that is a chunk, and an unknown start node all give no hits. The
//! store lookups happen between the steps of the walk.

use vstd::prelude::*;

verus! {

/// What the store holds under an id.
#[derive(Debug)]
pub enum NodeLookup {
    /// A summary node, with its children's ids.
    Summary { children: Vec<String> },
    /// A leaf chunk.
    Chunk,
    /// Nothing.
    Missing,
}

/// What a visited node contributes.
#[derive(Debug, Clone, Copy, PartialEq, Eq, Structural)]
pub enum VisitHit {
    /// A hit built from the summary.
    Summary,
    /// A hit built from the chunk.
    Chunk,
    /// No hit.
    Nothing,
}

/// The ids of `children`, each paired with `depth`.
pub open spec fn queued(children: Seq<String>, depth: u32) -> Seq<(Seq<char>, u32)> {
    children.map_values(|c: String| (c@, depth))
}

/// The state of a walk: the queue of `(id, depth)` still to visit.
pub struct DrillWalk {
    frontier: Vec<(String, u32)>,
    max_depth: u32,
}

impl DrillWalk {
    #[verifier::type_invariant]
    spec fn inv(self) -> bool {
        forall|i: int| 0 <= i < self.frontier@.len() ==> 1 <= #[trigger] self.frontier@[i].1 <= self.max_depth
    }

    /// The queue, oldest first.
    pub closed spec fn queue(self) -> Seq<(Seq<char>, u32)> {
        self.frontier@.map_values(|e: (String, u32)| (e.0@, e.1))
    }

    /// The depth limit.
    pub closed spec fn limit(self) -> u32 {
        self.max_depth
    }

    /// The walk below a start node, given what the store holds under it:
    /// `None` when nothing is to be walked (depth 0, or a start that is not
    /// a summary).
    pub fn start(start: NodeLookup, max_depth: u32) -> (w: Option<Self>)
        ensures
            match w {
                None => max_depth == 0 || !(start is Summary),
                Some(w) => max_depth > 0 && (start matches NodeLookup::Summary { children }
                    && w.queue() == queued(children@, 1)) && w.limit() == max_depth,
            },
    {
        if max_depth == 0 {
            return None;
        }
        match start {
            NodeLookup::Summary { children } => {
                let mut frontier: Vec<(String, u32)> = Vec::new();
                let mut i: usize = 0;
                while i < children.len()
                    invariant
                        i <= children@.len(),
                        max_depth >= 1,
                        frontier@.map_values(|e: (String, u32)| (e.0@, e.1)) == queued(children@.subrange(0, i as int), 1),
                        forall|k: int| 0 <= k < frontier@.len() ==> #[trigger] frontier@[k].1 == 1,
                    decreases children@.len() - i,
                {
                    let ghost before = frontier@.map_values(|e: (String, u32)| (e.0@, e.1));
                    frontier.push((children[i].clone(), 1));
                    assert(frontier@.map_values(|e: (String, u32)| (e.0@, e.1)) =~= before.push((children@[i as int]@, 1u32)));
                    assert(queued(children@.subrange(0, i + 1), 1) =~= queued(children@.subrange(0, i as int), 1).push((children@[i as int]@, 1u32)));
                    i = i + 1;
                }
                assert(children@.subrange(0, children@.len() as int) =~= children@);
                Some(DrillWalk { frontier, max_depth })
            },
            _ => None,
        }
    }

    /// The next node to visit: the most recently queued one.
    pub fn next(&mut self) -> (r: Option<(String, u32)>)
        ensures
            final(self).limit() == old(self).limit(),
            old(self).queue().len() == 0 ==> r is None && final(self).queue() == old(self).queue(),
            old(self).queue().len() > 0 ==> (r matches Some(e) && (e.0@, e.1) == old(self).queue().last()
                && 1 <= e.1 <= old(self).limit()) && final(self).queue() == old(self).queue().drop_last(),
    {
        proof {
            use_type_invariant(&*self);
        }
        let mut frontier = Vec::new();
        std::mem::swap(&mut frontier, &mut self.frontier);
        let ghost before = frontier@;
        let r = frontier.pop();
        proof {
            if before.len() > 0 {
                assert(frontier@.map_values(|e: (String, u32)| (e.0@, e.1)) =~= before.map_values(
                    |e: (String, u32)| (e.0@, e.1),
                ).drop_last());
            }
        }
        self.frontier = frontier;
        r
    }

    /// Visit a node at `depth` whose lookup gave `lookup`: a summary is a
    /// hit and, above the depth limit, queues its children one level
    /// deeper; a chunk is a hit; a missing node is skipped.
    pub fn visit(&mut self, depth: u32, lookup: NodeLookup) -> (h: VisitHit)
        requires
            1 <= depth <= old(self).limit(),
        ensures
            final(self).limit() == old(self).limit(),
            match lookup {
                NodeLookup::Summary { children } => h == VisitHit::Summary && final(self).queue() == if depth
                    < old(self).limit() {
                    old(self).queue() + queued(children@, (depth + 1) as u32)
                } else {
                    old(self).queue()
                },
                NodeLookup::Chunk => h == VisitHit::Chunk && final(self).queue() == old(self).queue(),
                NodeLookup::Missing => h == VisitHit::Nothing && final(self).queue() == old(self).queue(),
            },
    {
        proof {
            use_type_invariant(&*self);
        }
        match lookup {
            NodeLookup::Summary { children } => {
                if depth < self.max_depth {
                    let next_depth = depth + 1;
                    let mut frontier = Vec::new();
                    std::mem::swap(&mut frontier, &mut self.frontier);
                    let ghost base = frontier@.map_values(|e: (String, u32)| (e.0@, e.1));
                    let ghost base_raw = frontier@;
                    let mut i: usize = 0;
                    while i < children.len()
                        invariant
                            i <= children@.len(),
                            1 <= next_depth <= self.max_depth,
                            frontier@.len() == base_raw.len() + i,
                            forall|k: int| 0 <= k < base_raw.len() ==> #[trigger] frontier@[k] == base_raw[k],
                            forall|k: int| 0 <= k < base_raw.len() ==> 1 <= #[trigger] base_raw[k].1 <= self.max_depth,
                            forall|k: int| base_raw.len() <= k < frontier@.len() ==> #[trigger] frontier@[k].1 == next_depth,
                            frontier@.map_values(|e: (String, u32)| (e.0@, e.1)) == base + queued(children@.subrange(0, i as int), next_depth),
                        decreases children@.len() - i,
                    {
                        let ghost before = frontier@.map_values(|e: (String, u32)| (e.0@, e.1));
                        frontier.push((children[i].clone(), next_depth));
                        assert(frontier@.map_values(|e: (String, u32)| (e.0@, e.1)) =~= before.push((children@[i as int]@, next_depth)));
                        assert(queued(children@.subrange(0, i + 1), next_depth) =~= queued(children@.subrange(0, i as int), next_depth).push((children@[i as int]@, next_depth)));
                        i = i + 1;
                    }
                    assert(children@.subrange(0, children@.len() as int) =~= children@);
                    self.frontier = frontier;
                }
                VisitHit::Summary
            },
            NodeLookup::Chunk => VisitHit::Chunk,
            NodeLookup::Missing => VisitHit::Nothing,
        }
    }
}

} // verus!
