//! The per-node startup log: the ordered operations a node replays when it
//! starts, upserted by snippet id.
use crate::snippet::ComposableSnippet;
use std::collections::VecDeque;
use vstd::prelude::*;

verus! {

/// Whether some entry of `log` has id `id`.
pub open spec fn has_id(log: Seq<ComposableSnippet>, id: Seq<char>) -> bool {
    exists|i: int| 0 <= i < log.len() && #[trigger] log[i].id@ == id
}

/// Whether `i` is the first position of `log` whose entry has id `id`.
pub open spec fn is_first_with_id(log: Seq<ComposableSnippet>, id: Seq<char>, i: int) -> bool {
    &&& 0 <= i < log.len()
    &&& log[i].id@ == id
    &&& forall|j: int| 0 <= j < i ==> #[trigger] log[j].id@ != id
}

/// The first position of `log` whose entry has id `id` (meaningful where
/// `has_id(log, id)`).
pub open spec fn first_with_id(log: Seq<ComposableSnippet>, id: Seq<char>) -> int {
    choose|i: int| is_first_with_id(log, id, i)
}

/// The log after upserting `s`: the first entry with the same id is
/// replaced in place; without one, `s` is appended.
pub open spec fn upserted(log: Seq<ComposableSnippet>, s: ComposableSnippet) -> Seq<ComposableSnippet> {
    if has_id(log, s.id@) {
        log.update(first_with_id(log, s.id@), s)
    } else {
        log.push(s)
    }
}

/// The log after upserting each of `ss` in turn.
pub open spec fn upserted_all(log: Seq<ComposableSnippet>, ss: Seq<ComposableSnippet>) -> Seq<
    ComposableSnippet,
>
    decreases ss.len(),
{
    if ss.len() == 0 {
        log
    } else {
        upserted(upserted_all(log, ss.drop_last()), ss.last())
    }
}

/// An entry with a given id has a first position.
pub proof fn lemma_first_with_id(log: Seq<ComposableSnippet>, id: Seq<char>, i: int)
    requires
        0 <= i < log.len(),
        log[i].id@ == id,
    ensures
        is_first_with_id(log, id, first_with_id(log, id)),
        first_with_id(log, id) <= i,
    decreases i,
{
    if exists|j: int| 0 <= j < i && #[trigger] log[j].id@ == id {
        let j = choose|j: int| 0 <= j < i && #[trigger] log[j].id@ == id;
        lemma_first_with_id(log, id, j);
    } else {
        assert(is_first_with_id(log, id, i));
        let f = first_with_id(log, id);
        if f > i {
            assert(log[i].id@ != id);
        }
    }
}

/// Node launch configuration: the operations replayed, in order, when the
/// node starts.
#[derive(Clone, Debug, Default)]
pub struct StartupConfig {
    pub commands: VecDeque<ComposableSnippet>,
}

impl StartupConfig {
    /// An empty log.
    pub fn default_values() -> (r: StartupConfig)
        ensures
            r.commands@ == Seq::<ComposableSnippet>::empty(),
    {
        StartupConfig { commands: VecDeque::new() }
    }

    /// Upserts `snippet`: replaces the first entry with the same id in
    /// place, or appends it when there is none.
    pub fn add_composite(&mut self, snippet: ComposableSnippet)
        ensures
            final(self).commands@ == upserted(old(self).commands@, snippet),
    {
        let n = self.commands.len();
        let mut i: usize = 0;
        while i < n
            invariant
                n == self.commands@.len(),
                self.commands@ == old(self).commands@,
                i <= n,
                forall|j: int| 0 <= j < i ==> #[trigger] self.commands@[j].id@ != snippet.id@,
            decreases n - i,
        {
            if self.commands[i].id == snippet.id {
                proof {
                    assert(is_first_with_id(self.commands@, snippet.id@, i as int));
                    lemma_first_with_id(self.commands@, snippet.id@, i as int);
                }
                let ghost before = self.commands@;
                self.commands.remove(i);
                self.commands.insert(i, snippet);
                assert(self.commands@ =~= before.update(i as int, snippet));
                return;
            }
            i = i + 1;
        }
        self.commands.push_back(snippet);
    }
}

/// Upserting two snippets with the same id leaves the log's length as the
/// first upsert left it, and the later snippet takes the earlier one's
/// place.
pub proof fn lemma_upsert_same_id_twice(
    log: Seq<ComposableSnippet>,
    s1: ComposableSnippet,
    s2: ComposableSnippet,
)
    requires
        s1.id@ == s2.id@,
    ensures
        ({
            let once = upserted(log, s1);
            let twice = upserted(once, s2);
            &&& twice.len() == once.len()
            &&& has_id(once, s2.id@)
            &&& twice == once.update(first_with_id(once, s2.id@), s2)
            &&& twice[first_with_id(once, s2.id@)] == s2
        }),
{
    let once = upserted(log, s1);
    let id = s1.id@;
    if has_id(log, id) {
        let w = choose|i: int| 0 <= i < log.len() && #[trigger] log[i].id@ == id;
        lemma_first_with_id(log, id, w);
        let f = first_with_id(log, id);
        assert(once[f].id@ == id);
        lemma_first_with_id(once, id, f);
    } else {
        let k = log.len() as int;
        assert(once[k].id@ == id);
        lemma_first_with_id(once, id, k);
    }
}

/// Upserting snippets whose ids are distinct from each other and from every
/// entry already in the log appends them in the order given.
pub proof fn lemma_upsert_keeps_order(log: Seq<ComposableSnippet>, ss: Seq<ComposableSnippet>)
    requires
        forall|i: int, j: int| 0 <= i < j < ss.len() ==> #[trigger] ss[i].id@ != #[trigger] ss[j].id@,
        forall|i: int, k: int|
            0 <= i < ss.len() && 0 <= k < log.len() ==> #[trigger] ss[i].id@ != #[trigger] log[k].id@,
    ensures
        upserted_all(log, ss) == log + ss,
    decreases ss.len(),
{
    if ss.len() > 0 {
        let rest = ss.drop_last();
        let s = ss.last();
        assert forall|i: int, j: int| 0 <= i < j < rest.len() implies #[trigger] rest[i].id@
            != #[trigger] rest[j].id@ by {
            assert(rest[i] == ss[i] && rest[j] == ss[j]);
        }
        assert forall|i: int, k: int| 0 <= i < rest.len() && 0 <= k < log.len() implies #[trigger] rest[i].id@
            != #[trigger] log[k].id@ by {
            assert(rest[i] == ss[i]);
        }
        lemma_upsert_keeps_order(log, rest);
        let prefix = log + rest;
        assert(!has_id(prefix, s.id@)) by {
            assert forall|k: int| 0 <= k < prefix.len() implies #[trigger] prefix[k].id@ != s.id@ by {
                if k < log.len() {
                    assert(ss[ss.len() - 1].id@ != log[k].id@);
                } else {
                    assert(prefix[k] == ss[k - log.len()]);
                    assert(ss[k - log.len()].id@ != ss[ss.len() - 1].id@);
                }
            }
        }
        assert(prefix.push(s) =~= log + ss);
    }
}

} // verus!
