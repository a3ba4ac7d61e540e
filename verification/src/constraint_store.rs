//! Store of constraints learned from failures.
//!
//! Constraints are facts about the environment or task that narrow which
//! approaches are valid. The store keeps them in order of discovery; reading
//! and writing the backing file is done by the caller.
use vstd::prelude::*;
use crate::clock::{is_hyphenated_uuid, is_rfc3339_utc, new_uuid_v4, now_rfc3339};
use crate::text::{str_eq, strings_view};

verus! {

/// A single constraint discovered during execution.
#[derive(Debug)]
pub struct Constraint {
    /// Unique identifier (UUID v4).
    pub id: String,
    /// Human-readable description.
    pub description: String,
    /// What failure taught us this constraint.
    pub learned_from: String,
    /// RFC 3339 creation time.
    pub created_at: String,
}

impl Clone for Constraint {
    fn clone(&self) -> (c: Self)
        ensures
            c == *self,
    {
        Constraint {
            id: self.id.clone(),
            description: self.description.clone(),
            learned_from: self.learned_from.clone(),
            created_at: self.created_at.clone(),
        }
    }
}

/// Keeps the constraints whose id differs from `id`.
pub open spec fn keep_other_ids(s: Seq<Constraint>, id: Seq<char>) -> Seq<Constraint> {
    s.filter(|c: Constraint| c.id@ != id)
}

/// Some constraint of `s` has id `id`.
pub open spec fn has_id(s: Seq<Constraint>, id: Seq<char>) -> bool {
    exists|i: int| 0 <= i < s.len() && s[i].id@ == id
}

/// The descriptions of `s`, in order.
pub open spec fn descriptions(s: Seq<Constraint>) -> Seq<Seq<char>> {
    s.map_values(|c: Constraint| c.description@)
}

/// Constraints learned during execution, in order of discovery.
pub struct ConstraintStore {
    constraints: Vec<Constraint>,
    file_path: String,
}

impl View for ConstraintStore {
    type V = Seq<Constraint>;

    closed spec fn view(&self) -> Seq<Constraint> {
        self.constraints@
    }
}

/// `new` is `old` with one constraint appended that has the given description
/// and source and the id `id`.
pub open spec fn appended(
    old: Seq<Constraint>,
    new: Seq<Constraint>,
    id: Seq<char>,
    description: Seq<char>,
    learned_from: Seq<char>,
) -> bool {
    &&& new.len() == old.len() + 1
    &&& new.drop_last() == old
    &&& new.last().id@ == id
    &&& new.last().description@ == description
    &&& new.last().learned_from@ == learned_from
}

impl ConstraintStore {
    /// The file the store is persisted to.
    pub closed spec fn path_spec(&self) -> Seq<char> {
        self.file_path@
    }

    /// A store backed by `file_path`, holding the constraints that were read
    /// from it (`loaded`), or none when the file was missing or unreadable.
    pub fn new(file_path: String, loaded: Option<Vec<Constraint>>) -> (s: Self)
        ensures
            s.path_spec() == file_path@,
            loaded matches Some(v) ==> s@ == v@,
            loaded is None ==> s@.len() == 0,
    {
        let constraints = match loaded {
            Some(v) => v,
            None => Vec::new(),
        };
        ConstraintStore { constraints, file_path }
    }

    /// An empty store that is not backed by a file.
    pub fn in_memory() -> (s: Self)
        ensures
            s@.len() == 0,
            s.path_spec().len() == 0,
    {
        ConstraintStore { constraints: Vec::new(), file_path: String::new() }
    }

    /// The file the store is persisted to.
    pub fn file_path(&self) -> (p: &str)
        ensures
            p@ == self.path_spec(),
    {
        self.file_path.as_str()
    }

    /// Add a constraint learned from a failure; returns its new id.
    pub fn add(&mut self, description: &str, learned_from: &str) -> (id: String)
        ensures
            appended(old(self)@, final(self)@, id@, description@, learned_from@),
            is_hyphenated_uuid(id@),
            is_rfc3339_utc(final(self)@.last().created_at@),
            final(self).path_spec() == old(self).path_spec(),
    {
        let id = new_uuid_v4();
        let c = Constraint {
            id: id.clone(),
            description: description.to_owned(),
            learned_from: learned_from.to_owned(),
            created_at: now_rfc3339(),
        };
        self.constraints.push(c);
        assert(self.constraints@.drop_last() =~= old(self).constraints@);
        id
    }

    /// Add a hard constraint; the source is empty when none is given.
    pub fn add_hard(&mut self, description: &str, learned_from: Option<&str>) -> (id: String)
        ensures
            appended(
                old(self)@,
                final(self)@,
                id@,
                description@,
                match learned_from {
                    Some(l) => l@,
                    None => Seq::<char>::empty(),
                },
            ),
            final(self).path_spec() == old(self).path_spec(),
    {
        proof {
            reveal_strlit("");
        }
        let source: &str = match learned_from {
            Some(l) => l,
            None => "",
        };
        let id = self.add(description, source);
        assert(source@ == match learned_from {
            Some(l) => l@,
            None => Seq::<char>::empty(),
        });
        id
    }

    /// Remove the constraints with id `id`; true when one was present.
    pub fn remove(&mut self, id: &str) -> (removed: bool)
        ensures
            final(self)@ == keep_other_ids(old(self)@, id@),
            removed == has_id(old(self)@, id@),
            final(self).path_spec() == old(self).path_spec(),
    {
        let ghost pred = |c: Constraint| c.id@ != id@;
        let mut kept: Vec<Constraint> = Vec::new();
        let mut found = false;
        let mut i: usize = 0;
        while i < self.constraints.len()
            invariant
                i <= self.constraints@.len(),
                self.constraints@ == old(self).constraints@,
                kept@ == self.constraints@.take(i as int).filter(pred),
                found == has_id(self.constraints@.take(i as int), id@),
                pred == (|c: Constraint| c.id@ != id@),
            decreases self.constraints@.len() - i,
        {
            let ghost before = self.constraints@.take(i as int);
            let ghost after = self.constraints@.take(i + 1);
            assert(after.drop_last() =~= before);
            reveal(Seq::filter);
            if str_eq(self.constraints[i].id.as_str(), id) {
                found = true;
                assert(after[i as int].id@ == id@);
            } else {
                kept.push(self.constraints[i].clone());
                assert(has_id(after, id@) == has_id(before, id@)) by {
                    if has_id(after, id@) {
                        let j = choose|j: int| 0 <= j < after.len() && after[j].id@ == id@;
                        assert(j < i);
                        assert(before[j] == after[j]);
                    }
                }
            }
            i += 1;
        }
        assert(self.constraints@.take(self.constraints@.len() as int) =~= self.constraints@);
        self.constraints = kept;
        found
    }

    /// All constraints, in order of discovery.
    pub fn all(&self) -> (r: &[Constraint])
        ensures
            r@ == self@,
    {
        self.constraints.as_slice()
    }

    /// Remove all constraints.
    pub fn clear(&mut self)
        ensures
            final(self)@.len() == 0,
            final(self).path_spec() == old(self).path_spec(),
    {
        self.constraints.clear();
    }

    /// The descriptions, in order, for feeding into a planner prompt.
    pub fn as_strings(&self) -> (r: Vec<String>)
        ensures
            strings_view(r@) == descriptions(self@),
    {
        let mut r: Vec<String> = Vec::new();
        let mut i: usize = 0;
        while i < self.constraints.len()
            invariant
                i <= self.constraints@.len(),
                strings_view(r@) == descriptions(self.constraints@.take(i as int)),
            decreases self.constraints@.len() - i,
        {
            let ghost old_r = r@;
            r.push(self.constraints[i].description.clone());
            assert(strings_view(r@) =~= strings_view(old_r).push(self.constraints@[i as int].description@));
            assert(descriptions(self.constraints@.take(i + 1)) =~= descriptions(self.constraints@.take(i as int)).push(self.constraints@[i as int].description@));
            i += 1;
        }
        assert(self.constraints@.take(self.constraints@.len() as int) =~= self.constraints@);
        r
    }

    /// Whether some constraint has exactly this description.
    pub fn has(&self, description: &str) -> (r: bool)
        ensures
            r == descriptions(self@).contains(description@),
    {
        let mut i: usize = 0;
        while i < self.constraints.len()
            invariant
                i <= self.constraints@.len(),
                forall|j: int| 0 <= j < i ==> self.constraints@[j].description@ != description@,
            decreases self.constraints@.len() - i,
        {
            if str_eq(self.constraints[i].description.as_str(), description) {
                assert(descriptions(self.constraints@)[i as int] == description@);
                return true;
            }
            i += 1;
        }
        assert forall|j: int| 0 <= j < descriptions(self@).len() implies descriptions(self@)[j]
            != description@ by {
            assert(descriptions(self@)[j] == self.constraints@[j].description@);
        }
        false
    }

    /// Number of constraints.
    pub fn len(&self) -> (n: usize)
        ensures
            n == self@.len(),
    {
        self.constraints.len()
    }

    /// Whether the store is empty.
    pub fn is_empty(&self) -> (b: bool)
        ensures
            b == (self@.len() == 0),
    {
        self.constraints.len() == 0
    }
}


/// A constraint just added is found by its description.
pub proof fn lemma_added_is_found(
    old: Seq<Constraint>,
    new: Seq<Constraint>,
    id: Seq<char>,
    description: Seq<char>,
    learned_from: Seq<char>,
)
    requires
        appended(old, new, id, description, learned_from),
    ensures
        descriptions(new).contains(description),
        has_id(new, id),
{
    assert(descriptions(new)[new.len() - 1] == description);
    assert(new[new.len() - 1].id@ == id);
}

/// After removing an id, no constraint with that id is left, and every
/// constraint with another id is still there.
pub proof fn lemma_removed_is_gone(s: Seq<Constraint>, id: Seq<char>)
    ensures
        !has_id(keep_other_ids(s, id), id),
        forall|i: int| 0 <= i < s.len() && s[i].id@ != id ==> #[trigger] keep_other_ids(s, id).contains(s[i]),
{
    let pred = |c: Constraint| c.id@ != id;
    s.filter_lemma(pred);
}

/// Removing an id that is not there changes nothing.
pub proof fn lemma_remove_absent_keeps(s: Seq<Constraint>, id: Seq<char>)
    requires
        !has_id(s, id),
    ensures
        keep_other_ids(s, id) == s,
    decreases s.len(),
{
    let pred = |c: Constraint| c.id@ != id;
    reveal(Seq::filter);
    if s.len() > 0 {
        assert(!has_id(s.drop_last(), id)) by {
            if has_id(s.drop_last(), id) {
                let j = choose|j: int| 0 <= j < s.drop_last().len() && s.drop_last()[j].id@ == id;
                assert(s[j].id@ == id);
            }
        }
        lemma_remove_absent_keeps(s.drop_last(), id);
        assert(s[s.len() - 1].id@ != id);
        assert(s.drop_last().push(s.last()) =~= s);
    } else {
        assert(s.filter(pred) =~= s);
    }
}

} // verus!
