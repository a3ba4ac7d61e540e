//! Skill instruction registry: skill-specific LLM instructions selected by
//! keyword (or topic) matching against the user's message and formatted as a
//! prompt section, optionally filtered to registered skills and capped by a
//! budget.
use vstd::prelude::*;
use crate::planner::clone_strings;
use crate::text::{
    append_chars, append_str, chars_of, contains, count_words, lower_chars, lowercase, seq_contains, string_of,
    str_eq, strings_view, utf8_len, utf8_len_of, vec_has_str, word_count,
};

verus! {

/// How instruction injection behaves while a prompt is assembled.
#[derive(Debug, Clone, Copy, PartialEq, Eq, Structural)]
pub enum PromptInjectionMode {
    /// Inject matching instructions into the prompt.
    PerMessage,
    /// Inject nothing (orchestrator mode).
    Disabled,
    /// Select by topic affinity for delegation.
    TopicAffinity,
}

/// One skill entry of the registry file.
#[derive(Debug)]
pub struct SkillInstructionEntry {
    pub id: String,
    pub instruction_file: String,
    pub keywords: Vec<String>,
    /// Topic tags for affinity matching in delegation mode.
    pub topics: Vec<String>,
    pub enabled: bool,
}

/// Two entries agree field by field.
pub open spec fn same_entry(a: SkillInstructionEntry, b: SkillInstructionEntry) -> bool {
    &&& a.id@ == b.id@
    &&& a.instruction_file@ == b.instruction_file@
    &&& strings_view(a.keywords@) == strings_view(b.keywords@)
    &&& strings_view(a.topics@) == strings_view(b.topics@)
    &&& a.enabled == b.enabled
}

impl Clone for SkillInstructionEntry {
    fn clone(&self) -> (c: Self)
        ensures
            same_entry(c, *self),
    {
        SkillInstructionEntry {
            id: self.id.clone(),
            instruction_file: self.instruction_file.clone(),
            keywords: clone_strings(&self.keywords),
            topics: clone_strings(&self.topics),
            enabled: self.enabled,
        }
    }
}

/// An entry with its loaded instruction text.
#[derive(Debug)]
pub struct LoadedInstruction {
    pub entry: SkillInstructionEntry,
    pub content: String,
}

/// Some keyword (lower-cased) occurs in the lower-cased message.
pub open spec fn keyword_hit(lower_msg: Seq<char>, keywords: Seq<String>) -> bool {
    exists|k: int| 0 <= k < keywords.len() && seq_contains(lower_msg, lowercase(#[trigger] keywords[k]@))
}

/// The entry has topics and one of them occurs in the lower-cased message.
pub open spec fn topic_hit(lower_msg: Seq<char>, topics: Seq<String>) -> bool {
    topics.len() > 0 && keyword_hit(lower_msg, topics)
}

/// Which entries a selection keeps: keyword matches, restricted to the
/// registered ids when a list is given, and with topic matches too when
/// `use_topics`.
pub open spec fn keeps(e: LoadedInstruction, lower_msg: Seq<char>, registered: Option<Seq<Seq<char>>>, use_topics: bool) -> bool {
    &&& (registered matches Some(ids) ==> ids.contains(e.entry.id@))
    &&& (keyword_hit(lower_msg, e.entry.keywords@) || (use_topics && topic_hit(lower_msg, e.entry.topics@)))
}

/// Ids and contents of the kept entries, in registry order.
pub open spec fn selected(entries: Seq<LoadedInstruction>, lower_msg: Seq<char>, registered: Option<Seq<Seq<char>>>, use_topics: bool) -> Seq<(Seq<char>, Seq<char>)>
    decreases entries.len(),
{
    if entries.len() == 0 {
        Seq::empty()
    } else {
        let rest = selected(entries.drop_last(), lower_msg, registered, use_topics);
        if keeps(entries.last(), lower_msg, registered, use_topics) {
            rest.push((entries.last().entry.id@, entries.last().content@))
        } else {
            rest
        }
    }
}

/// The prompt text of one instruction.
pub open spec fn entry_text(id: Seq<char>, content: Seq<char>) -> Seq<char> {
    "<!-- skill: "@ + id + " -->\n"@ + content + "\n\n"@
}

/// The prompt texts of a list of instructions, concatenated.
pub open spec fn section_body(items: Seq<(Seq<char>, Seq<char>)>) -> Seq<char>
    decreases items.len(),
{
    if items.len() == 0 {
        Seq::empty()
    } else {
        section_body(items.drop_last()) + entry_text(items.last().0, items.last().1)
    }
}

/// Header of the prompt section.
pub open spec fn prompt_header() -> Seq<char> {
    "\n\n## Skill-Specific Instructions\n\n"@
}

/// Header of the delegation section.
pub open spec fn delegation_header() -> Seq<char> {
    "\n## Skill-Specific Instructions\n\n"@
}

/// A section: empty when nothing was selected, else header and texts.
pub open spec fn section(header: Seq<char>, items: Seq<(Seq<char>, Seq<char>)>) -> Seq<char> {
    if items.len() == 0 {
        Seq::empty()
    } else {
        header + section_body(items)
    }
}

/// Largest word count of a keyword that occurs in the message, if any.
pub open spec fn best_specificity(lower_msg: Seq<char>, keywords: Seq<String>) -> Option<nat>
    decreases keywords.len(),
{
    if keywords.len() == 0 {
        None
    } else {
        let rest = best_specificity(lower_msg, keywords.drop_last());
        if seq_contains(lower_msg, lowercase(keywords.last()@)) {
            let w = word_count(keywords.last()@);
            match rest {
                Some(r) => Some(if r >= w { r } else { w }),
                None => Some(w),
            }
        } else {
            rest
        }
    }
}

/// An entry's specificity is the largest word count among its keywords
/// that occur in the message: there is one exactly when some keyword
/// occurs, it is at least the word count of every occurring keyword, and
/// it is the word count of one of them.
pub proof fn lemma_best_specificity_is_max(lower_msg: Seq<char>, keywords: Seq<String>)
    ensures
        best_specificity(lower_msg, keywords) is Some <==>
            exists|k: int| 0 <= k < keywords.len() && seq_contains(lower_msg, lowercase(#[trigger] keywords[k]@)),
        best_specificity(lower_msg, keywords) matches Some(b) ==> (forall|k: int| 0 <= k < keywords.len()
            && seq_contains(lower_msg, lowercase(#[trigger] keywords[k]@)) ==> word_count(keywords[k]@) <= b),
        best_specificity(lower_msg, keywords) matches Some(b) ==> (exists|k: int| 0 <= k < keywords.len()
            && seq_contains(lower_msg, lowercase(#[trigger] keywords[k]@)) && word_count(keywords[k]@) == b),
    decreases keywords.len(),
{
    if keywords.len() > 0 {
        let init = keywords.drop_last();
        let n = keywords.len() - 1;
        lemma_best_specificity_is_max(lower_msg, init);
        assert forall|k: int| 0 <= k < init.len() implies #[trigger] init[k] == keywords[k] by {}
        if seq_contains(lower_msg, lowercase(keywords[n]@)) {
            assert(keywords.last() == keywords[n]);
        } else {
            if exists|k: int| 0 <= k < keywords.len() && seq_contains(lower_msg, lowercase(#[trigger] keywords[k]@)) {
                let k = choose|k: int| 0 <= k < keywords.len() && seq_contains(lower_msg, lowercase(#[trigger] keywords[k]@));
                assert(k < n);
                assert(init[k] == keywords[k]);
            }
        }
        match best_specificity(lower_msg, keywords) {
            Some(b) => {
                assert forall|k: int| 0 <= k < keywords.len()
                    && seq_contains(lower_msg, lowercase(#[trigger] keywords[k]@)) implies word_count(keywords[k]@) <= b by {
                    if k < n {
                        assert(init[k] == keywords[k]);
                    }
                }
                if best_specificity(lower_msg, keywords) == best_specificity(lower_msg, init) {
                    let k = choose|k: int| 0 <= k < init.len()
                        && seq_contains(lower_msg, lowercase(#[trigger] init[k]@)) && word_count(init[k]@) == b;
                    assert(keywords[k] == init[k]);
                } else if seq_contains(lower_msg, lowercase(keywords[n]@)) && word_count(keywords[n]@) == b {
                } else {
                    let k = choose|k: int| 0 <= k < init.len()
                        && seq_contains(lower_msg, lowercase(#[trigger] init[k]@)) && word_count(init[k]@) == b;
                    assert(keywords[k] == init[k]);
                }
            },
            None => {},
        }
    }
}

/// Candidates of the budgeted section: registered entries with a matching
/// keyword, with their best specificity, in registry order.
pub open spec fn scored(entries: Seq<LoadedInstruction>, lower_msg: Seq<char>, registered: Seq<Seq<char>>) -> Seq<(Seq<char>, Seq<char>, nat)>
    decreases entries.len(),
{
    if entries.len() == 0 {
        Seq::empty()
    } else {
        let rest = scored(entries.drop_last(), lower_msg, registered);
        let e = entries.last();
        if registered.contains(e.entry.id@) {
            match best_specificity(lower_msg, e.entry.keywords@) {
                Some(w) => rest.push((e.entry.id@, e.content@, w)),
                None => rest,
            }
        } else {
            rest
        }
    }
}

/// Non-increasing in the score.
pub open spec fn by_score_desc(s: Seq<(Seq<char>, Seq<char>, nat)>) -> bool {
    forall|i: int, j: int| 0 <= i < j < s.len() ==> (#[trigger] s[i]).2 >= (#[trigger] s[j]).2
}

/// The ordered candidates that go into the section: taken in order while
/// fewer than `max_n` are in; a candidate whose text would bring the total
/// beyond `max_bytes` bytes (`used` so far) is skipped and later ones are
/// still tried.
pub open spec fn budget_pick(items: Seq<(Seq<char>, Seq<char>)>, max_n: nat, max_bytes: nat, used: nat) -> Seq<(Seq<char>, Seq<char>)>
    decreases items.len(),
{
    if items.len() == 0 || max_n == 0 {
        Seq::empty()
    } else {
        let t = utf8_len(entry_text(items[0].0, items[0].1));
        if used + t > max_bytes {
            budget_pick(items.drop_first(), max_n, max_bytes, used)
        } else {
            seq![items[0]] + budget_pick(items.drop_first(), (max_n - 1) as nat, max_bytes, used + t)
        }
    }
}

proof fn lemma_section_body_push(a: Seq<(Seq<char>, Seq<char>)>, x: (Seq<char>, Seq<char>))
    ensures
        section_body(a.push(x)) == section_body(a) + entry_text(x.0, x.1),
{
    assert(a.push(x).drop_last() =~= a);
}

/// Id and content of a candidate.
pub open spec fn pair_of(s: Seq<(Seq<char>, Seq<char>, nat)>) -> Seq<(Seq<char>, Seq<char>)> {
    s.map_values(|x: (Seq<char>, Seq<char>, nat)| (x.0, x.1))
}

/// The entry is enabled and its instruction text was read.
pub open spec fn usable(x: (SkillInstructionEntry, Option<String>)) -> bool {
    x.0.enabled && x.1 is Some
}

/// Item `j` is usable and no later usable item has its id.
pub open spec fn last_usable(items: Seq<(SkillInstructionEntry, Option<String>)>, j: int) -> bool {
    &&& usable(items[j])
    &&& forall|j2: int| j < j2 < items.len() && usable(#[trigger] items[j2]) ==> items[j2].0.id@ != items[j].0.id@
}

/// Some entry has id `id`.
pub open spec fn has_entry_id(entries: Seq<LoadedInstruction>, id: Seq<char>) -> bool {
    exists|k: int| 0 <= k < entries.len() && (#[trigger] entries[k]).entry.id@ == id
}

/// Some usable item at index `lo` or later has id `id`.
pub open spec fn usable_id_from(items: Seq<(SkillInstructionEntry, Option<String>)>, lo: int, id: Seq<char>) -> bool {
    exists|j: int| lo <= j < items.len() && usable(#[trigger] items[j]) && items[j].0.id@ == id
}

/// The loaded entry is the last usable item with its id, at index `lo`
/// or later.
pub open spec fn from_last_usable(items: Seq<(SkillInstructionEntry, Option<String>)>, lo: int, e: LoadedInstruction) -> bool {
    exists|j: int| lo <= j < items.len() && #[trigger] last_usable(items, j) && same_entry(e.entry, items[j].0)
        && items[j].1 is Some && items[j].1->0@ == e.content@
}

/// Cached registry entries with their instruction text. Ids are unique.
pub struct InstructionRegistry {
    entries: Vec<LoadedInstruction>,
}

/// Views of string pairs.
pub open spec fn pairs_view(v: Seq<(String, String)>) -> Seq<(Seq<char>, Seq<char>)> {
    v.map_values(|p: (String, String)| (p.0@, p.1@))
}

/// The id and text of an entry.
pub open spec fn entry_pair(e: LoadedInstruction) -> (Seq<char>, Seq<char>) {
    (e.entry.id@, e.content@)
}

/// `p` is the id and text of an entry that the selection keeps.
pub open spec fn picked(entries: Seq<LoadedInstruction>, lower_msg: Seq<char>, registered: Option<Seq<Seq<char>>>, use_topics: bool, p: (Seq<char>, Seq<char>)) -> bool {
    exists|j: int| #![trigger entries[j]] 0 <= j < entries.len() && keeps(entries[j], lower_msg, registered, use_topics) && p == entry_pair(entries[j])
}

/// A selection holds exactly the kept entries: each item is the id and text
/// of a kept entry, and each kept entry gives an item.
proof fn lemma_selected_members(entries: Seq<LoadedInstruction>, lower_msg: Seq<char>, registered: Option<Seq<Seq<char>>>, use_topics: bool)
    ensures
        forall|k: int| 0 <= k < selected(entries, lower_msg, registered, use_topics).len() ==>
            picked(entries, lower_msg, registered, use_topics, #[trigger] selected(entries, lower_msg, registered, use_topics)[k]),
        forall|j: int| 0 <= j < entries.len() && #[trigger] keeps(entries[j], lower_msg, registered, use_topics) ==>
            selected(entries, lower_msg, registered, use_topics).contains(entry_pair(entries[j])),
    decreases entries.len(),
{
    if entries.len() > 0 {
        let init = entries.drop_last();
        lemma_selected_members(init, lower_msg, registered, use_topics);
        let rest = selected(init, lower_msg, registered, use_topics);
        let sel = selected(entries, lower_msg, registered, use_topics);
        assert forall|k: int| 0 <= k < sel.len() implies picked(entries, lower_msg, registered, use_topics, #[trigger] sel[k]) by {
            if k < rest.len() {
                assert(sel[k] == rest[k]);
                assert(picked(init, lower_msg, registered, use_topics, rest[k]));
                let j = choose|j: int| 0 <= j < init.len() && keeps(init[j], lower_msg, registered, use_topics)
                    && rest[k] == entry_pair(init[j]);
                assert(entries[j] == init[j]);
            } else {
                let last = entries.len() - 1;
                assert(sel[k] == entry_pair(entries[last]));
                assert(keeps(entries[last], lower_msg, registered, use_topics));
            }
        }
        assert forall|j: int| 0 <= j < entries.len() && #[trigger] keeps(entries[j], lower_msg, registered, use_topics) implies
            sel.contains(entry_pair(entries[j])) by {
            if j < init.len() {
                assert(entries[j] == init[j]);
                let k = choose|k: int| 0 <= k < rest.len() && rest[k] == entry_pair(init[j]);
                assert(sel[k] == rest[k]);
            } else {
                assert(sel[rest.len() as int] == entry_pair(entries[j]));
            }
        }
    }
}

/// Of entries with distinct ids, a selection names each id at most once.
proof fn lemma_selected_ids_once(entries: Seq<LoadedInstruction>, lower_msg: Seq<char>, registered: Option<Seq<Seq<char>>>, use_topics: bool)
    requires
        forall|i: int, j: int| 0 <= i < j < entries.len() ==> (#[trigger] entries[i]).entry.id@ != (#[trigger] entries[j]).entry.id@,
    ensures
        forall|a: int, b: int| 0 <= a < b < selected(entries, lower_msg, registered, use_topics).len() ==>
            (#[trigger] selected(entries, lower_msg, registered, use_topics)[a]).0 != (#[trigger] selected(entries, lower_msg, registered, use_topics)[b]).0,
    decreases entries.len(),
{
    if entries.len() > 0 {
        let init = entries.drop_last();
        assert forall|i: int, j: int| 0 <= i < j < init.len() implies (#[trigger] init[i]).entry.id@ != (#[trigger] init[j]).entry.id@ by {
            assert(init[i] == entries[i] && init[j] == entries[j]);
        }
        lemma_selected_ids_once(init, lower_msg, registered, use_topics);
        lemma_selected_members(init, lower_msg, registered, use_topics);
        let rest = selected(init, lower_msg, registered, use_topics);
        let sel = selected(entries, lower_msg, registered, use_topics);
        let last = entries.len() - 1;
        if keeps(entries[last], lower_msg, registered, use_topics) {
            assert forall|a: int, b: int| 0 <= a < b < sel.len() implies (#[trigger] sel[a]).0 != (#[trigger] sel[b]).0 by {
                assert(sel[a] == rest[a]);
                if b < rest.len() {
                    assert(sel[b] == rest[b]);
                } else {
                    assert(picked(init, lower_msg, registered, use_topics, rest[a]));
                    let j = choose|j: int| 0 <= j < init.len() && keeps(init[j], lower_msg, registered, use_topics)
                        && rest[a] == entry_pair(init[j]);
                    assert(init[j] == entries[j]);
                    assert(sel[b] == entry_pair(entries[last]));
                }
            }
        }
    }
}

impl InstructionRegistry {
    /// What a selection of instructions holds: each item is the id and text
    /// of an entry of the registry that the selection keeps (by keyword, by
    /// registered id, by topic where asked), every such entry gives an item,
    /// and no id occurs twice.
    pub proof fn lemma_selection_is_the_kept_entries(&self, lower_msg: Seq<char>, registered: Option<Seq<Seq<char>>>, use_topics: bool)
        requires
            self.wf(),
        ensures
            forall|k: int| 0 <= k < selected(self.entries_spec(), lower_msg, registered, use_topics).len() ==>
                picked(self.entries_spec(), lower_msg, registered, use_topics, #[trigger] selected(self.entries_spec(), lower_msg, registered, use_topics)[k]),
            forall|j: int| 0 <= j < self.entries_spec().len() && #[trigger] keeps(self.entries_spec()[j], lower_msg, registered, use_topics) ==>
                selected(self.entries_spec(), lower_msg, registered, use_topics).contains(entry_pair(self.entries_spec()[j])),
            forall|a: int, b: int| 0 <= a < b < selected(self.entries_spec(), lower_msg, registered, use_topics).len() ==>
                (#[trigger] selected(self.entries_spec(), lower_msg, registered, use_topics)[a]).0
                    != (#[trigger] selected(self.entries_spec(), lower_msg, registered, use_topics)[b]).0,
    {
        lemma_selected_members(self.entries@, lower_msg, registered, use_topics);
        lemma_selected_ids_once(self.entries@, lower_msg, registered, use_topics);
    }
}

impl InstructionRegistry {
    /// The entries, in registry order.
    pub closed spec fn entries_spec(&self) -> Seq<LoadedInstruction> {
        self.entries@
    }

    /// No two entries share an id.
    pub closed spec fn wf(&self) -> bool {
        forall|i: int, j: int| 0 <= i < j < self.entries@.len() ==> (#[trigger] self.entries@[i]).entry.id@ != (#[trigger] self.entries@[j]).entry.id@
    }

    /// A registry with no entries.
    pub fn empty() -> (r: Self)
        ensures
            r.wf(),
            r.entries_spec().len() == 0,
    {
        InstructionRegistry { entries: Vec::new() }
    }

    /// Build the registry from parsed entries, each with its instruction
    /// text or `None` when the file could not be read: disabled entries and
    /// entries without text are skipped, and of several entries with the
    /// same id the last one counts.
    pub fn from_entries(items: &[(SkillInstructionEntry, Option<String>)]) -> (r: Self)
        ensures
            r.wf(),
            forall|id: Seq<char>| #[trigger] has_entry_id(r.entries_spec(), id) <==> usable_id_from(items@, 0, id),
            forall|k: int| 0 <= k < r.entries_spec().len() ==> from_last_usable(items@, 0, #[trigger] r.entries_spec()[k]),
    {
        let mut reg = InstructionRegistry::empty();
        let mut i: usize = items.len();
        while i > 0
            invariant
                i <= items@.len(),
                reg.wf(),
                forall|id: Seq<char>| #[trigger] has_entry_id(reg.entries@, id) <==> usable_id_from(items@, i as int, id),
                forall|k: int| 0 <= k < reg.entries@.len() ==> from_last_usable(items@, i as int, #[trigger] reg.entries@[k]),
            decreases i,
        {
            i -= 1;
            let ghost before = reg.entries@;
            let (entry, content) = &items[i];
            if entry.enabled {
                match content {
                    Some(c) => {
                        if !reg.has_id(entry.id.as_str()) {
                            reg.entries.push(LoadedInstruction { entry: entry.clone(), content: c.clone() });
                            proof {
                                assert forall|a: int, b: int| 0 <= a < b < reg.entries@.len() implies (#[trigger] reg.entries@[a]).entry.id@ != (#[trigger] reg.entries@[b]).entry.id@ by {
                                    if b == reg.entries@.len() - 1 {
                                        assert(before[a].entry.id@ != items@[i as int].0.id@);
                                    } else {
                                        assert(before[a].entry.id@ != before[b].entry.id@);
                                    }
                                }
                                assert(last_usable(items@, i as int)) by {
                                    assert forall|j2: int| i < j2 < items@.len() && usable(#[trigger] items@[j2]) implies items@[j2].0.id@ != items@[i as int].0.id@ by {
                                        if items@[j2].0.id@ == items@[i as int].0.id@ {
                                            assert(usable_id_from(items@, i + 1, items@[i as int].0.id@));
                                            assert(has_entry_id(before, items@[i as int].0.id@));
                                        }
                                    }
                                }
                            }
                        }
                    },
                    None => {},
                }
            }
            proof {
                assert forall|id: Seq<char>| #[trigger] has_entry_id(reg.entries@, id) <==> usable_id_from(items@, i as int, id) by {
                    if has_entry_id(reg.entries@, id) {
                        let k = choose|k: int| 0 <= k < reg.entries@.len() && (#[trigger] reg.entries@[k]).entry.id@ == id;
                        if k < before.len() {
                            assert(before[k] == reg.entries@[k]);
                        } else {
                            assert(usable(items@[i as int]));
                        }
                    }
                    if usable_id_from(items@, i as int, id) {
                        let j = choose|j: int| i <= j < items@.len() && usable(#[trigger] items@[j]) && items@[j].0.id@ == id;
                        if j > i {
                            assert(usable_id_from(items@, i + 1, id));
                            assert(has_entry_id(before, id));
                            let k = choose|k: int| 0 <= k < before.len() && (#[trigger] before[k]).entry.id@ == id;
                            assert(reg.entries@[k] == before[k]);
                        } else if reg.entries@.len() > before.len() {
                            assert(reg.entries@[before.len() as int].entry.id@ == id);
                        }
                    }
                }
                assert forall|k: int| 0 <= k < reg.entries@.len() implies from_last_usable(items@, i as int, #[trigger] reg.entries@[k]) by {
                    if k < before.len() {
                        assert(reg.entries@[k] == before[k]);
                        assert(from_last_usable(items@, i + 1, before[k]));
                        let j = choose|j: int| i + 1 <= j < items@.len() && #[trigger] last_usable(items@, j) && same_entry(before[k].entry, items@[j].0)
                            && items@[j].1 is Some && items@[j].1->0@ == before[k].content@;
                        assert(last_usable(items@, j));
                    } else {
                        assert(same_entry(reg.entries@[k].entry, items@[i as int].0));
                        assert(last_usable(items@, i as int));
                    }
                }
            }
        }
        reg
    }

    fn has_id(&self, id: &str) -> (r: bool)
        ensures
            r == has_entry_id(self.entries@, id@),
    {
        let mut k: usize = 0;
        while k < self.entries.len()
            invariant
                k <= self.entries@.len(),
                forall|j: int| 0 <= j < k ==> (#[trigger] self.entries@[j]).entry.id@ != id@,
            decreases self.entries@.len() - k,
        {
            if str_eq(self.entries[k].entry.id.as_str(), id) {
                return true;
            }
            k += 1;
        }
        false
    }
}

/// The registered-id restriction, by view.
pub open spec fn registered_view(r: Option<&Vec<String>>) -> Option<Seq<Seq<char>>> {
    match r {
        Some(v) => Some(strings_view(v@)),
        None => None,
    }
}

fn any_word_in(lower_msg: &[char], words: &Vec<String>) -> (r: bool)
    ensures
        r == keyword_hit(lower_msg@, words@),
{
    let mut k: usize = 0;
    while k < words.len()
        invariant
            k <= words@.len(),
            forall|j: int| 0 <= j < k ==> !seq_contains(lower_msg@, lowercase(#[trigger] words@[j]@)),
        decreases words@.len() - k,
    {
        let w = lower_chars(words[k].as_str());
        if contains(lower_msg, w.as_slice()) {
            return true;
        }
        k += 1;
    }
    false
}

fn best_specificity_of(lower_msg: &[char], keywords: &Vec<String>) -> (r: Option<usize>)
    ensures
        r is None <==> best_specificity(lower_msg@, keywords@) is None,
        r matches Some(w) ==> best_specificity(lower_msg@, keywords@) == Some(w as nat),
{
    let mut best: Option<usize> = None;
    let mut k: usize = 0;
    while k < keywords.len()
        invariant
            k <= keywords@.len(),
            best is None <==> best_specificity(lower_msg@, keywords@.take(k as int)) is None,
            best matches Some(w) ==> best_specificity(lower_msg@, keywords@.take(k as int)) == Some(w as nat),
        decreases keywords@.len() - k,
    {
        assert(keywords@.take(k + 1).drop_last() =~= keywords@.take(k as int));
        let w = lower_chars(keywords[k].as_str());
        if contains(lower_msg, w.as_slice()) {
            let kc = chars_of(keywords[k].as_str());
            let n = count_words(kc.as_slice());
            best = match best {
                Some(b) => Some(if b >= n { b } else { n }),
                None => Some(n),
            };
        }
        k += 1;
    }
    assert(keywords@.take(keywords@.len() as int) =~= keywords@);
    best
}

/// A candidate of the budgeted section.
#[derive(Debug)]
pub struct Candidate {
    pub id: String,
    pub content: String,
    pub score: usize,
}

/// Id, content and score of candidates.
pub open spec fn candidates_view(v: Seq<Candidate>) -> Seq<(Seq<char>, Seq<char>, nat)> {
    v.map_values(|c: Candidate| (c.id@, c.content@, c.score as nat))
}

fn append_entry_text(out: &mut Vec<char>, id: &str, content: &str)
    ensures
        final(out)@ == old(out)@ + entry_text(id@, content@),
{
    append_str(out, "<!-- skill: ");
    append_str(out, id);
    append_str(out, " -->\n");
    append_str(out, content);
    append_str(out, "\n\n");
    assert(final(out)@ =~= old(out)@ + entry_text(id@, content@));
}

fn format_section(header: &str, items: &Vec<(String, String)>) -> (s: String)
    ensures
        s@ == section(header@, pairs_view(items@)),
{
    if items.len() == 0 {
        return String::new();
    }
    let mut out: Vec<char> = Vec::new();
    append_str(&mut out, header);
    let mut i: usize = 0;
    while i < items.len()
        invariant
            i <= items@.len(),
            out@ == header@ + section_body(pairs_view(items@.take(i as int))),
        decreases items@.len() - i,
    {
        append_entry_text(&mut out, items[i].0.as_str(), items[i].1.as_str());
        proof {
            assert(pairs_view(items@.take(i + 1)).drop_last() =~= pairs_view(items@.take(i as int)));
        }
        i += 1;
    }
    assert(items@.take(items@.len() as int) =~= items@);
    string_of(out.as_slice())
}

impl InstructionRegistry {
    fn select(&self, lower_msg: &[char], registered: Option<&Vec<String>>, use_topics: bool) -> (r: Vec<(String, String)>)
        ensures
            pairs_view(r@) == selected(self.entries@, lower_msg@, registered_view(registered), use_topics),
    {
        let mut out: Vec<(String, String)> = Vec::new();
        let mut i: usize = 0;
        while i < self.entries.len()
            invariant
                i <= self.entries@.len(),
                pairs_view(out@) == selected(self.entries@.take(i as int), lower_msg@, registered_view(registered), use_topics),
            decreases self.entries@.len() - i,
        {
            assert(self.entries@.take(i + 1).drop_last() =~= self.entries@.take(i as int));
            let e = &self.entries[i];
            let listed = match registered {
                Some(ids) => vec_has_str(ids, e.entry.id.as_str()),
                None => true,
            };
            let hit = listed && (any_word_in(lower_msg, &e.entry.keywords)
                || (use_topics && e.entry.topics.len() > 0 && any_word_in(lower_msg, &e.entry.topics)));
            if hit {
                out.push((e.entry.id.clone(), e.content.clone()));
                assert(pairs_view(out@) =~= selected(self.entries@.take(i + 1), lower_msg@, registered_view(registered), use_topics));
            }
            i += 1;
        }
        assert(self.entries@.take(self.entries@.len() as int) =~= self.entries@);
        out
    }

    /// Ids and instruction texts of the entries with a keyword that occurs
    /// in the message (both lower-cased).
    pub fn select_instructions(&self, user_message: &str) -> (r: Vec<(String, String)>)
        ensures
            pairs_view(r@) == selected(self.entries_spec(), lowercase(user_message@), None, false),
    {
        let lower = lower_chars(user_message);
        self.select(lower.as_slice(), None, false)
    }

    /// The matching instructions as a prompt section; empty when none match.
    pub fn format_for_prompt(&self, user_message: &str) -> (s: String)
        ensures
            s@ == section(prompt_header(), selected(self.entries_spec(), lowercase(user_message@), None, false)),
    {
        let matched = self.select_instructions(user_message);
        format_section("\n\n## Skill-Specific Instructions\n\n", &matched)
    }

    /// Like `format_for_prompt`, but only for skills whose ids are
    /// registered.
    pub fn format_for_prompt_filtered(&self, user_message: &str, registered_skill_ids: &Vec<String>) -> (s: String)
        ensures
            s@ == section(prompt_header(), selected(self.entries_spec(), lowercase(user_message@), Some(strings_view(registered_skill_ids@)), false)),
    {
        let lower = lower_chars(user_message);
        let matched = self.select(lower.as_slice(), Some(registered_skill_ids), false);
        format_section("\n\n## Skill-Specific Instructions\n\n", &matched)
    }

    /// Instructions for delegating to a sub-agent: registered skills that
    /// match by keyword, or by topic when they have topics.
    pub fn select_instructions_for_delegation(&self, user_message: &str, registered_skill_ids: &Vec<String>) -> (r: Vec<(String, String)>)
        ensures
            pairs_view(r@) == selected(self.entries_spec(), lowercase(user_message@), Some(strings_view(registered_skill_ids@)), true),
    {
        let lower = lower_chars(user_message);
        self.select(lower.as_slice(), Some(registered_skill_ids), true)
    }

    /// The delegation instructions as one section; empty when none match.
    pub fn format_for_delegation(&self, user_message: &str, registered_skill_ids: &Vec<String>) -> (s: String)
        ensures
            s@ == section(delegation_header(), selected(self.entries_spec(), lowercase(user_message@), Some(strings_view(registered_skill_ids@)), true)),
    {
        let matched = self.select_instructions_for_delegation(user_message, registered_skill_ids);
        format_section("\n## Skill-Specific Instructions\n\n", &matched)
    }

    /// All loaded entries (for diagnostics).
    pub fn list_entries(&self) -> (r: Vec<SkillInstructionEntry>)
        ensures
            r@.len() == self.entries_spec().len(),
            forall|k: int| 0 <= k < r@.len() ==> same_entry(#[trigger] r@[k], self.entries_spec()[k].entry),
    {
        let mut out: Vec<SkillInstructionEntry> = Vec::new();
        let mut i: usize = 0;
        while i < self.entries.len()
            invariant
                i <= self.entries@.len(),
                out@.len() == i,
                forall|k: int| 0 <= k < i ==> same_entry(#[trigger] out@[k], self.entries@[k].entry),
            decreases self.entries@.len() - i,
        {
            out.push(self.entries[i].entry.clone());
            i += 1;
        }
        out
    }

    fn scored_candidates(&self, lower_msg: &[char], registered: &Vec<String>) -> (r: Vec<Candidate>)
        ensures
            candidates_view(r@) == scored(self.entries@, lower_msg@, strings_view(registered@)),
    {
        let mut out: Vec<Candidate> = Vec::new();
        let mut i: usize = 0;
        while i < self.entries.len()
            invariant
                i <= self.entries@.len(),
                candidates_view(out@) == scored(self.entries@.take(i as int), lower_msg@, strings_view(registered@)),
            decreases self.entries@.len() - i,
        {
            assert(self.entries@.take(i + 1).drop_last() =~= self.entries@.take(i as int));
            let e = &self.entries[i];
            if vec_has_str(registered, e.entry.id.as_str()) {
                match best_specificity_of(lower_msg, &e.entry.keywords) {
                    Some(w) => {
                        out.push(Candidate { id: e.entry.id.clone(), content: e.content.clone(), score: w });
                        assert(candidates_view(out@) =~= scored(self.entries@.take(i + 1), lower_msg@, strings_view(registered@)));
                    },
                    None => {},
                }
            }
            i += 1;
        }
        assert(self.entries@.take(self.entries@.len() as int) =~= self.entries@);
        out
    }
}

impl Clone for Candidate {
    fn clone(&self) -> (c: Self)
        ensures
            c == *self,
    {
        Candidate { id: self.id.clone(), content: self.content.clone(), score: self.score }
    }
}

fn sort_by_score_desc(items: &Vec<Candidate>) -> (r: Vec<Candidate>)
    ensures
        by_score_desc(candidates_view(r@)),
        candidates_view(r@).to_multiset() == candidates_view(items@).to_multiset(),
{
    broadcast use vstd::seq_lib::to_multiset_insert, vstd::seq_lib::to_multiset_build;
    let mut out: Vec<Candidate> = Vec::new();
    let mut i: usize = 0;
    assert(candidates_view(items@.take(0)) =~= candidates_view(out@));
    while i < items.len()
        invariant
            i <= items@.len(),
            by_score_desc(candidates_view(out@)),
            candidates_view(out@).to_multiset() == candidates_view(items@.take(i as int)).to_multiset(),
        decreases items@.len() - i,
    {
        let c = items[i].clone();
        let ghost before_take = candidates_view(items@.take(i as int));
        let mut p: usize = 0;
        while p < out.len() && out[p].score >= c.score
            invariant
                p <= out@.len(),
                forall|k: int| 0 <= k < p ==> (#[trigger] out@[k]).score >= c.score,
            decreases out@.len() - p,
        {
            p += 1;
        }
        let ghost old_view = candidates_view(out@);
        let ghost cv = (c.id@, c.content@, c.score as nat);
        out.insert(p, c);
        proof {
            assert(candidates_view(out@) =~= old_view.insert(p as int, cv));
            assert forall|a: int, b: int| 0 <= a < b < candidates_view(out@).len() implies
                (#[trigger] candidates_view(out@)[a]).2 >= (#[trigger] candidates_view(out@)[b]).2 by {
                if b < p {
                    assert(old_view[a].2 >= old_view[b].2);
                } else if b == p {
                    assert(old_view[a].2 == out@[a].score);
                } else if a == p {
                    assert(old_view[p as int].2 < cv.2);
                    if b - 1 > p {
                        assert(old_view[p as int].2 >= old_view[b - 1].2);
                    }
                } else if a < p {
                    assert(old_view[a].2 >= old_view[b - 1].2);
                } else {
                    assert(old_view[a - 1].2 >= old_view[b - 1].2);
                }
            }
            assert(candidates_view(items@.take(i + 1)) =~= before_take.push(cv));
            vstd::seq_lib::to_multiset_insert(old_view, p as int, cv);
            vstd::seq_lib::to_multiset_build(before_take, cv);
        }
        i += 1;
    }
    assert(items@.take(items@.len() as int) =~= items@);
    out
}

impl InstructionRegistry {
    /// Like `format_for_prompt_filtered`, but capped: candidates are ordered
    /// by the word count of their most specific matching keyword (highest
    /// first), and the leading ones are taken while there are fewer than
    /// `max_instructions` and their texts stay within `max_bytes` bytes.
    /// Empty when nothing fits.
    pub fn format_for_prompt_budgeted(
        &self,
        user_message: &str,
        registered_skill_ids: &Vec<String>,
        max_instructions: usize,
        max_bytes: usize,
    ) -> (s: String)
        ensures
            exists|order: Seq<(Seq<char>, Seq<char>, nat)>| {
                &&& by_score_desc(order)
                &&& order.to_multiset() == scored(self.entries_spec(), lowercase(user_message@), strings_view(registered_skill_ids@)).to_multiset()
                &&& s@ == section(prompt_header(), budget_pick(pair_of(order), max_instructions as nat, max_bytes as nat, 0))
            },
    {
        let lower = lower_chars(user_message);
        let cands = self.scored_candidates(lower.as_slice(), registered_skill_ids);
        let sorted = sort_by_score_desc(&cands);
        let ghost order = candidates_view(sorted@);
        let ghost pairs = pair_of(order);
        if max_instructions == 0 || max_bytes == 0 {
            proof {
                if max_instructions > 0 {
                    assert forall|j: int| 0 <= j < pairs.len() implies utf8_len(entry_text(#[trigger] pairs[j].0, pairs[j].1)) > 0 by {
                        lemma_entry_text_nonempty(pairs[j].0, pairs[j].1);
                    }
                    lemma_pick_none_fit(pairs, max_instructions as nat);
                    assert(budget_pick(pairs, max_instructions as nat, max_bytes as nat, 0) =~= Seq::<(Seq<char>, Seq<char>)>::empty());
                }
            }
            return String::new();
        }
        let mut out: Vec<char> = Vec::new();
        append_str(&mut out, "\n\n## Skill-Specific Instructions\n\n");
        let mut total: u128 = 0;
        let mut i: usize = 0;
        let mut k: usize = 0;
        let ghost mut picked: Seq<(Seq<char>, Seq<char>)> = Seq::empty();
        assert(pairs.skip(0) =~= pairs);
        while i < sorted.len() && k < max_instructions
            invariant
                i <= sorted@.len(),
                pairs == pair_of(candidates_view(sorted@)),
                pairs.len() == sorted@.len(),
                k <= max_instructions,
                k == picked.len(),
                total <= max_bytes,
                out@ == prompt_header() + section_body(picked),
                budget_pick(pairs, max_instructions as nat, max_bytes as nat, 0)
                    == picked + budget_pick(pairs.skip(i as int), (max_instructions - k) as nat, max_bytes as nat, total as nat),
            decreases sorted@.len() - i,
        {
            let mut t: Vec<char> = Vec::new();
            append_entry_text(&mut t, sorted[i].id.as_str(), sorted[i].content.as_str());
            let n = utf8_len_of(t.as_slice());
            proof {
                assert(pairs.skip(i as int)[0] == pairs[i as int]);
                assert(pairs[i as int] == (sorted@[i as int].id@, sorted@[i as int].content@));
                assert(pairs.skip(i as int).drop_first() =~= pairs.skip(i + 1));
            }
            if n <= (max_bytes as u128) - total {
                append_chars(&mut out, t.as_slice());
                total = total + n;
                proof {
                    lemma_section_body_push(picked, pairs[i as int]);
                    let rest = budget_pick(pairs.skip(i + 1), (max_instructions - k - 1) as nat, max_bytes as nat, total as nat);
                    assert(picked + (seq![pairs[i as int]] + rest) =~= picked.push(pairs[i as int]) + rest);
                    picked = picked.push(pairs[i as int]);
                }
                k += 1;
            }
            i += 1;
        }
        proof {
            assert(budget_pick(pairs.skip(i as int), (max_instructions - k) as nat, max_bytes as nat, total as nat) =~= Seq::<(Seq<char>, Seq<char>)>::empty());
            assert(budget_pick(pairs, max_instructions as nat, max_bytes as nat, 0) =~= picked);
        }
        if k == 0 {
            return String::new();
        }
        string_of(out.as_slice())
    }
}

proof fn lemma_pick_none_fit(items: Seq<(Seq<char>, Seq<char>)>, max_n: nat)
    requires
        forall|j: int| 0 <= j < items.len() ==> utf8_len(entry_text(#[trigger] items[j].0, items[j].1)) > 0,
    ensures
        budget_pick(items, max_n, 0, 0).len() == 0,
    decreases items.len(),
{
    if items.len() > 0 && max_n > 0 {
        assert forall|j: int| 0 <= j < items.drop_first().len() implies utf8_len(entry_text(#[trigger] items.drop_first()[j].0, items.drop_first()[j].1)) > 0 by {
            assert(items.drop_first()[j] == items[j + 1]);
        }
        lemma_pick_none_fit(items.drop_first(), max_n);
    }
}

proof fn lemma_entry_text_nonempty(id: Seq<char>, content: Seq<char>)
    ensures
        utf8_len(entry_text(id, content)) > 0,
{
    reveal_strlit("<!-- skill: ");
    lemma_utf8_len_concat_ge(entry_text(id, content));
}

proof fn lemma_utf8_len_concat_ge(s: Seq<char>)
    ensures
        utf8_len(s) >= s.len(),
    decreases s.len(),
{
    if s.len() > 0 {
        lemma_utf8_len_concat_ge(s.drop_last());
    }
}

} // verus!
