//! Commands sent and not yet answered, so that a response can be matched to
//! the command it answers by its id.
use vstd::prelude::*;
use vstd::string::*;
use crate::protocol::ExecutorCommand;

verus! {

/// The table that entries make, each later entry overriding an earlier one
/// with the same id.
pub open spec fn table_of(entries: Seq<(Seq<char>, Seq<char>)>) -> Map<Seq<char>, Seq<char>>
    decreases entries.len(),
{
    if entries.len() == 0 {
        Map::empty()
    } else {
        table_of(entries.drop_last()).insert(entries.last().0, entries.last().1)
    }
}

pub open spec fn entry_views(v: Seq<(String, String)>) -> Seq<(Seq<char>, Seq<char>)> {
    v.map_values(|e: (String, String)| (e.0@, e.1@))
}

/// The commands awaiting a response: from each command's id to its name.
#[derive(Debug)]
pub struct PendingRequests {
    entries: Vec<(String, String)>,
}

impl View for PendingRequests {
    type V = Map<Seq<char>, Seq<char>>;

    closed spec fn view(&self) -> Map<Seq<char>, Seq<char>> {
        table_of(entry_views(self.entries@))
    }
}

proof fn lemma_table_push_remove(t: Seq<(Seq<char>, Seq<char>)>, x: (Seq<char>, Seq<char>), id: Seq<char>)
    ensures
        x.0 == id ==> table_of(t.push(x)).remove(id) == table_of(t).remove(id),
        x.0 != id ==> table_of(t.push(x)).remove(id) == table_of(t).remove(id).insert(x.0, x.1),
{
    assert(t.push(x).drop_last() =~= t);
    if x.0 == id {
        assert(table_of(t.push(x)).remove(id) =~= table_of(t).remove(id));
    } else {
        assert(table_of(t.push(x)).remove(id) =~= table_of(t).remove(id).insert(x.0, x.1));
    }
}

impl PendingRequests {
    /// A table with no command in it.
    pub fn new() -> (r: Self)
        ensures
            r@ == Map::<Seq<char>, Seq<char>>::empty(),
    {
        let r = PendingRequests { entries: Vec::new() };
        assert(entry_views(r.entries@) =~= Seq::<(Seq<char>, Seq<char>)>::empty());
        r
    }

    /// Records a sent command as awaiting its response.
    pub fn register(&mut self, command: &ExecutorCommand)
        ensures
            final(self)@ == old(self)@.insert(command.id@, command.command@),
    {
        let ghost before = self.entries@;
        self.entries.push((command.id.clone(), command.command.clone()));
        assert(self.entries@.drop_last() =~= before);
        assert(entry_views(self.entries@).drop_last() =~= entry_views(before));
    }

    /// Whether a command with this id awaits its response.
    pub fn is_pending(&self, id: &str) -> (r: bool)
        ensures
            r == self@.contains_key(id@),
    {
        let key = String::from_str(id);
        let mut found = false;
        let mut i: usize = 0;
        while i < self.entries.len()
            invariant
                i <= self.entries@.len(),
                key@ == id@,
                found == table_of(entry_views(self.entries@).take(i as int)).contains_key(id@),
            decreases self.entries@.len() - i,
        {
            let ghost t = entry_views(self.entries@);
            assert(t.take(i as int + 1).drop_last() =~= t.take(i as int));
            assert(t.take(i as int + 1).last() == t[i as int]);
            if self.entries[i].0 == key {
                found = true;
            }
            i = i + 1;
        }
        assert(entry_views(self.entries@).take(i as int) =~= entry_views(self.entries@));
        found
    }

    /// Matches a response's id to the command it answers: gives that
    /// command's name and forgets it; an unknown id gives none and changes
    /// nothing.
    pub fn resolve(&mut self, id: &str) -> (r: Option<String>)
        ensures
            final(self)@ == old(self)@.remove(id@),
            r is Some <==> old(self)@.contains_key(id@),
            r matches Some(name) ==> name@ == old(self)@[id@],
    {
        let key = String::from_str(id);
        let ghost all = entry_views(self.entries@);
        let mut kept: Vec<(String, String)> = Vec::new();
        let mut found: Option<String> = None;
        let mut i: usize = 0;
        while i < self.entries.len()
            invariant
                i <= self.entries@.len(),
                all == entry_views(self.entries@),
                key@ == id@,
                table_of(entry_views(kept@)) == table_of(all.take(i as int)).remove(id@),
                found is Some <==> table_of(all.take(i as int)).contains_key(id@),
                found matches Some(n) ==> n@ == table_of(all.take(i as int))[id@],
            decreases self.entries@.len() - i,
        {
            let ghost prefix = all.take(i as int);
            assert(all.take(i as int + 1) =~= prefix.push(all[i as int]));
            assert(all.take(i as int + 1).drop_last() =~= prefix);
            proof {
                lemma_table_push_remove(prefix, all[i as int], id@);
            }
            let (entry_id, entry_name) = (&self.entries[i].0, &self.entries[i].1);
            if *entry_id == key {
                found = Some(entry_name.clone());
            } else {
                let ghost before = kept@;
                kept.push((entry_id.clone(), entry_name.clone()));
                assert(kept@.drop_last() =~= before);
                assert(entry_views(kept@).drop_last() =~= entry_views(before));
            }
            i = i + 1;
        }
        assert(all.take(i as int) =~= all);
        self.entries = kept;
        found
    }
}

} // verus!
