//! Persistent request/response topic topology of skills: topic names per
//! skill, the set of skills to provision from the registry, and each
//! skill's runtime.
use vstd::prelude::*;
use crate::ordered::{insert_sorted, strictly_sorted};
use crate::text::{append_chars, append_str, chars_of, str_eq, string_of, strings_view, trim, trim_chars};

verus! {

/// Stream that holds the skill topics.
pub const SKILL_TOPOLOGY_STREAM: &'static str = "entity";

/// Topic names and worker group of one skill.
#[derive(Debug)]
pub struct SkillTopicBinding {
    pub request_topic: String,
    pub response_topic: String,
    pub worker_group: String,
}

/// ASCII letter or digit.
pub open spec fn is_ascii_alnum(c: char) -> bool {
    ('a' <= c && c <= 'z') || ('A' <= c && c <= 'Z') || ('0' <= c && c <= '9')
}

/// A character kept in topic names; others become `_`.
pub open spec fn topic_char(c: char) -> char {
    if is_ascii_alnum(c) || c == '.' || c == '_' || c == '-' {
        c
    } else {
        '_'
    }
}

/// A skill id made safe for topic names.
pub open spec fn sanitized(id: Seq<char>) -> Seq<char> {
    id.map_values(|c: char| topic_char(c))
}

fn sanitize_topic_name(skill_id: &str) -> (r: Vec<char>)
    ensures
        r@ == sanitized(skill_id@),
{
    let cs = chars_of(skill_id);
    let mut r: Vec<char> = Vec::new();
    let mut i: usize = 0;
    while i < cs.len()
        invariant
            i <= cs@.len(),
            cs@ == skill_id@,
            r@ == sanitized(cs@.take(i as int)),
        decreases cs@.len() - i,
    {
        let c = cs[i];
        let keep = ('a' <= c && c <= 'z') || ('A' <= c && c <= 'Z') || ('0' <= c && c <= '9') || c == '.' || c == '_' || c == '-';
        r.push(if keep { c } else { '_' });
        assert(r@ =~= sanitized(cs@.take(i + 1)));
        i += 1;
    }
    assert(cs@.take(cs@.len() as int) =~= cs@);
    r
}

/// The request and response topics and the worker group of a skill:
/// `topic.skill.<name>.request`, `topic.skill.<name>.response` and
/// `skill-worker.<name>`, where `<name>` is the sanitized id.
pub fn binding_for_skill(skill_id: &str) -> (b: SkillTopicBinding)
    ensures
        b.request_topic@ == "topic.skill."@ + sanitized(skill_id@) + ".request"@,
        b.response_topic@ == "topic.skill."@ + sanitized(skill_id@) + ".response"@,
        b.worker_group@ == "skill-worker."@ + sanitized(skill_id@),
{
    let name = sanitize_topic_name(skill_id);
    let mut req: Vec<char> = Vec::new();
    append_str(&mut req, "topic.skill.");
    append_chars(&mut req, name.as_slice());
    append_str(&mut req, ".request");
    let mut resp: Vec<char> = Vec::new();
    append_str(&mut resp, "topic.skill.");
    append_chars(&mut resp, name.as_slice());
    append_str(&mut resp, ".response");
    let mut group: Vec<char> = Vec::new();
    append_str(&mut group, "skill-worker.");
    append_chars(&mut group, name.as_slice());
    SkillTopicBinding {
        request_topic: string_of(req.as_slice()),
        response_topic: string_of(resp.as_slice()),
        worker_group: string_of(group.as_slice()),
    }
}

/// `s` is `"wasm"` in some mix of ASCII upper and lower case.
pub open spec fn is_wasm_name(s: Seq<char>) -> bool {
    s.len() == 4 && forall|i: int| 0 <= i < 4 ==> (#[trigger] s[i] == "wasm"@[i] || s[i] == "WASM"@[i])
}

/// `"wasm"` for a runtime named so in any ASCII case, else `"native"`.
pub fn normalize_runtime(runtime: &str) -> (r: &'static str)
    ensures
        is_wasm_name(runtime@) ==> r@ == "wasm"@,
        !is_wasm_name(runtime@) ==> r@ == "native"@,
{
    proof {
        reveal_strlit("wasm");
        reveal_strlit("WASM");
    }
    let cs = chars_of(runtime);
    let lower: [char; 4] = ['w', 'a', 's', 'm'];
    let upper: [char; 4] = ['W', 'A', 'S', 'M'];
    if cs.len() != 4 {
        return "native";
    }
    let mut i: usize = 0;
    while i < 4
        invariant
            i <= 4,
            cs@ == runtime@,
            cs@.len() == 4,
            lower@ == "wasm"@,
            upper@ == "WASM"@,
            forall|j: int| 0 <= j < i ==> (#[trigger] cs@[j] == "wasm"@[j] || cs@[j] == "WASM"@[j]),
        decreases 4 - i,
    {
        if cs[i] != lower[i] && cs[i] != upper[i] {
            return "native";
        }
        i += 1;
    }
    "wasm"
}

/// A registry entry of the persistent topology.
#[derive(Debug)]
pub struct TopologySkillEntry {
    pub name: String,
    pub runtime: String,
    pub enabled: bool,
}

/// Trimmed ids of enabled entries, skipping empty ones.
pub open spec fn enabled_ids(entries: Seq<(String, bool)>) -> Set<Seq<char>> {
    Set::new(|id: Seq<char>| exists|k: int| 0 <= k < entries.len() && (#[trigger] entries[k]).1
        && trim(entries[k].0@) == id && id.len() > 0)
}

/// The enabled skill ids of the registry (`id`, `enabled`), trimmed, without
/// empty ones, sorted and without repeats.
pub fn enabled_skill_ids(entries: &[(String, bool)]) -> (r: Vec<String>)
    ensures
        strictly_sorted(strings_view(r@)),
        strings_view(r@).to_set() == enabled_ids(entries@),
{
    let mut r: Vec<String> = Vec::new();
    let mut i: usize = 0;
    assert(strings_view(r@).to_set() =~= enabled_ids(entries@.take(0)));
    while i < entries.len()
        invariant
            i <= entries@.len(),
            strictly_sorted(strings_view(r@)),
            strings_view(r@).to_set() == enabled_ids(entries@.take(i as int)),
        decreases entries@.len() - i,
    {
        let ghost before = strings_view(r@).to_set();
        if entries[i].1 {
            let cs = chars_of(entries[i].0.as_str());
            let t = trim_chars(cs.as_slice());
            if t.len() > 0 {
                insert_sorted(&mut r, string_of(t.as_slice()));
            }
        }
        proof {
            assert(strings_view(r@).to_set() =~= enabled_ids(entries@.take(i + 1))) by {
                assert forall|id: Seq<char>| #[trigger] enabled_ids(entries@.take(i + 1)).contains(id) ==> strings_view(r@).to_set().contains(id) by {
                    if enabled_ids(entries@.take(i + 1)).contains(id) {
                        let k = choose|k: int| 0 <= k < entries@.take(i + 1).len() && (#[trigger] entries@.take(i + 1)[k]).1
                            && trim(entries@.take(i + 1)[k].0@) == id && id.len() > 0;
                        if k < i {
                            assert(entries@.take(i as int)[k] == entries@.take(i + 1)[k]);
                            assert(enabled_ids(entries@.take(i as int)).contains(id));
                        }
                    }
                }
                assert forall|id: Seq<char>| strings_view(r@).to_set().contains(id) ==> #[trigger] enabled_ids(entries@.take(i + 1)).contains(id) by {
                    if before.contains(id) {
                        let k = choose|k: int| 0 <= k < entries@.take(i as int).len() && (#[trigger] entries@.take(i as int)[k]).1
                            && trim(entries@.take(i as int)[k].0@) == id && id.len() > 0;
                        assert(entries@.take(i as int)[k] == entries@.take(i + 1)[k]);
                    } else {
                        assert(entries@.take(i + 1)[i as int] == entries@[i as int]);
                    }
                }
            }
        }
        i += 1;
    }
    assert(entries@.take(entries@.len() as int) =~= entries@);
    r
}

/// The runtime a skill gets: that of the last enabled topology entry with
/// its (trimmed) name, else `"native"`.
pub open spec fn runtime_for(topo: Seq<TopologySkillEntry>, name: Seq<char>) -> Seq<char>
    decreases topo.len(),
{
    if topo.len() == 0 {
        "native"@
    } else if topo.last().enabled && trim(topo.last().name@) == name {
        topo.last().runtime@
    } else {
        runtime_for(topo.drop_last(), name)
    }
}

/// Names of the persistent topology: the enabled instruction-registry ids
/// and the enabled topology names, trimmed and non-empty.
pub open spec fn topology_names(instr: Seq<(String, bool)>, topo: Seq<TopologySkillEntry>) -> Set<Seq<char>> {
    enabled_ids(instr) + Set::new(|id: Seq<char>| exists|k: int| 0 <= k < topo.len() && (#[trigger] topo[k]).enabled
        && trim(topo[k].name@) == id && id.len() > 0)
}

fn runtime_of(topo: &[TopologySkillEntry], name: &str) -> (r: String)
    ensures
        r@ == runtime_for(topo@, name@),
{
    let mut k: usize = topo.len();
    assert(topo@.take(k as int) =~= topo@);
    while k > 0
        invariant
            k <= topo@.len(),
            runtime_for(topo@, name@) == runtime_for(topo@.take(k as int), name@),
        decreases k,
    {
        assert(topo@.take(k as int).drop_last() =~= topo@.take(k - 1));
        let e = &topo[k - 1];
        if e.enabled {
            let cs = chars_of(e.name.as_str());
            let t = trim_chars(cs.as_slice());
            let ts = string_of(t.as_slice());
            if str_eq(ts.as_str(), name) {
                return e.runtime.clone();
            }
        }
        k -= 1;
    }
    proof {
        reveal_strlit("native");
    }
    "native".to_owned()
}

/// The persistent topology: every name of `topology_names`, once, sorted,
/// each with its runtime by `runtime_for`.
pub fn merge_topology_entries(instruction_entries: &[(String, bool)], topology_entries: &[TopologySkillEntry]) -> (r: Vec<TopologySkillEntry>)
    ensures
        strictly_sorted(r@.map_values(|e: TopologySkillEntry| e.name@)),
        r@.map_values(|e: TopologySkillEntry| e.name@).to_set() == topology_names(instruction_entries@, topology_entries@),
        forall|k: int| 0 <= k < r@.len() ==> (#[trigger] r@[k]).enabled && r@[k].runtime@ == runtime_for(topology_entries@, r@[k].name@),
{
    let mut all: Vec<(String, bool)> = Vec::new();
    let mut i: usize = 0;
    while i < instruction_entries.len()
        invariant
            i <= instruction_entries@.len(),
            all@.len() == i,
            forall|j: int| 0 <= j < i ==> (#[trigger] all@[j]).0@ == instruction_entries@[j].0@ && all@[j].1 == instruction_entries@[j].1,
        decreases instruction_entries@.len() - i,
    {
        all.push((instruction_entries[i].0.clone(), instruction_entries[i].1));
        i += 1;
    }
    let mut j: usize = 0;
    while j < topology_entries.len()
        invariant
            j <= topology_entries@.len(),
            all@.len() == instruction_entries@.len() + j,
            forall|q: int| 0 <= q < instruction_entries@.len() ==> (#[trigger] all@[q]).0@ == instruction_entries@[q].0@ && all@[q].1 == instruction_entries@[q].1,
            forall|q: int| 0 <= q < j ==> (#[trigger] all@[instruction_entries@.len() + q]).0@ == topology_entries@[q].name@
                && all@[instruction_entries@.len() + q].1 == topology_entries@[q].enabled,
        decreases topology_entries@.len() - j,
    {
        all.push((topology_entries[j].name.clone(), topology_entries[j].enabled));
        proof {
            assert(all@[instruction_entries@.len() + j].0@ == topology_entries@[j as int].name@);
        }
        j += 1;
    }
    let names = enabled_skill_ids(all.as_slice());
    proof {
        let n = instruction_entries@.len();
        assert(enabled_ids(all@) =~= topology_names(instruction_entries@, topology_entries@)) by {
            assert forall|id: Seq<char>| enabled_ids(all@).contains(id) <==> topology_names(instruction_entries@, topology_entries@).contains(id) by {
                if enabled_ids(all@).contains(id) {
                    let k = choose|k: int| 0 <= k < all@.len() && (#[trigger] all@[k]).1 && trim(all@[k].0@) == id && id.len() > 0;
                    if k < n {
                        assert(enabled_ids(instruction_entries@).contains(id));
                    } else {
                        assert(all@[n + (k - n)].0@ == topology_entries@[k - n].name@);
                        assert(topology_entries@[k - n].enabled);
                    }
                }
                if enabled_ids(instruction_entries@).contains(id) {
                    let k = choose|k: int| 0 <= k < instruction_entries@.len() && (#[trigger] instruction_entries@[k]).1
                        && trim(instruction_entries@[k].0@) == id && id.len() > 0;
                    assert(all@[k].1);
                }
                if exists|k: int| 0 <= k < topology_entries@.len() && (#[trigger] topology_entries@[k]).enabled
                    && trim(topology_entries@[k].name@) == id && id.len() > 0 {
                    let k = choose|k: int| 0 <= k < topology_entries@.len() && (#[trigger] topology_entries@[k]).enabled
                        && trim(topology_entries@[k].name@) == id && id.len() > 0;
                    assert(all@[n + k].1);
                }
            }
        }
    }
    let mut out: Vec<TopologySkillEntry> = Vec::new();
    let mut k: usize = 0;
    while k < names.len()
        invariant
            k <= names@.len(),
            out@.len() == k,
            forall|q: int| 0 <= q < k ==> (#[trigger] out@[q]).name@ == names@[q]@ && out@[q].enabled
                && out@[q].runtime@ == runtime_for(topology_entries@, names@[q]@),
        decreases names@.len() - k,
    {
        let runtime = runtime_of(topology_entries, names[k].as_str());
        out.push(TopologySkillEntry { name: names[k].clone(), runtime, enabled: true });
        k += 1;
    }
    assert(out@.map_values(|e: TopologySkillEntry| e.name@) =~= strings_view(names@));
    out
}

/// What to provision for one skill.
#[derive(Debug)]
pub struct ProvisionStep {
    pub skill_name: String,
    /// `"wasm"` or `"native"`.
    pub runtime: String,
    pub binding: SkillTopicBinding,
}

/// The provisioning steps for the topology entries, in order: each skill's
/// normalized runtime and its topic binding.
pub fn provision_plan(entries: &[TopologySkillEntry]) -> (r: Vec<ProvisionStep>)
    ensures
        r@.len() == entries@.len(),
        forall|k: int| 0 <= k < r@.len() ==> {
            &&& (#[trigger] r@[k]).skill_name@ == entries@[k].name@
            &&& (is_wasm_name(entries@[k].runtime@) ==> r@[k].runtime@ == "wasm"@)
            &&& (!is_wasm_name(entries@[k].runtime@) ==> r@[k].runtime@ == "native"@)
            &&& r@[k].binding.request_topic@ == "topic.skill."@ + sanitized(entries@[k].name@) + ".request"@
            &&& r@[k].binding.response_topic@ == "topic.skill."@ + sanitized(entries@[k].name@) + ".response"@
            &&& r@[k].binding.worker_group@ == "skill-worker."@ + sanitized(entries@[k].name@)
        },
{
    let mut out: Vec<ProvisionStep> = Vec::new();
    let mut i: usize = 0;
    while i < entries.len()
        invariant
            i <= entries@.len(),
            out@.len() == i,
            forall|k: int| 0 <= k < i ==> {
                &&& (#[trigger] out@[k]).skill_name@ == entries@[k].name@
                &&& (is_wasm_name(entries@[k].runtime@) ==> out@[k].runtime@ == "wasm"@)
                &&& (!is_wasm_name(entries@[k].runtime@) ==> out@[k].runtime@ == "native"@)
                &&& out@[k].binding.request_topic@ == "topic.skill."@ + sanitized(entries@[k].name@) + ".request"@
                &&& out@[k].binding.response_topic@ == "topic.skill."@ + sanitized(entries@[k].name@) + ".response"@
                &&& out@[k].binding.worker_group@ == "skill-worker."@ + sanitized(entries@[k].name@)
            },
        decreases entries@.len() - i,
    {
        let runtime = normalize_runtime(entries[i].runtime.as_str());
        let binding = binding_for_skill(entries[i].name.as_str());
        out.push(ProvisionStep { skill_name: entries[i].name.clone(), runtime: runtime.to_owned(), binding });
        i += 1;
    }
    out
}

/// Stops the provisioned topology: every worker handle kept for it is taken
/// out of the list, which is left empty, and handed back in the order it
/// was kept, for the caller to cancel.
pub fn cancel_provisioned_skill_topology<H>(workers: &mut Vec<H>) -> (drained: Vec<H>)
    ensures
        drained@ == old(workers)@,
        final(workers)@.len() == 0,
{
    let mut drained: Vec<H> = Vec::new();
    std::mem::swap(&mut drained, workers);
    drained
}

/// What a skill's topology worker answers to a request: the fields of its
/// JSON payload (`status` is `received`).
#[derive(Debug)]
pub struct WorkerReply {
    pub status: String,
    pub skill_name: String,
    pub runtime: String,
    pub worker_group: String,
    pub request_topic: String,
    pub request_message_id: String,
}

/// The request's headers with `runtime` set to `runtime`: an existing
/// `runtime` header keeps its place and takes the new value, else it is
/// added at the end.
pub open spec fn headers_with_runtime(h: Seq<(Seq<char>, Seq<char>)>, runtime: Seq<char>) -> Seq<(Seq<char>, Seq<char>)> {
    if exists|k: int| 0 <= k < h.len() && (#[trigger] h[k]).0 == "runtime"@ {
        h.map_values(|p: (Seq<char>, Seq<char>)| if p.0 == "runtime"@ { (p.0, runtime) } else { p })
    } else {
        h.push(("runtime"@, runtime))
    }
}

/// Header names and values by view.
pub open spec fn header_view(h: Seq<(String, String)>) -> Seq<(Seq<char>, Seq<char>)> {
    h.map_values(|p: (String, String)| (p.0@, p.1@))
}

/// The worker's answer to the request `message_id` with `headers`, for the
/// provisioning step `step`: the payload fields, and the headers to publish
/// on the response topic.
pub fn worker_reply(step: &ProvisionStep, message_id: &str, headers: &Vec<(String, String)>) -> (r: (WorkerReply, Vec<(String, String)>))
    ensures
        r.0.status@ == "received"@,
        r.0.skill_name@ == step.skill_name@,
        r.0.runtime@ == step.runtime@,
        r.0.worker_group@ == step.binding.worker_group@,
        r.0.request_topic@ == step.binding.request_topic@,
        r.0.request_message_id@ == message_id@,
        header_view(r.1@) == headers_with_runtime(header_view(headers@), step.runtime@),
{
    proof {
        reveal_strlit("received");
        reveal_strlit("runtime");
    }
    let reply = WorkerReply {
        status: "received".to_owned(),
        skill_name: step.skill_name.clone(),
        runtime: step.runtime.clone(),
        worker_group: step.binding.worker_group.clone(),
        request_topic: step.binding.request_topic.clone(),
        request_message_id: message_id.to_owned(),
    };
    let ghost hv = header_view(headers@);
    let mut out: Vec<(String, String)> = Vec::new();
    let mut found = false;
    let mut i: usize = 0;
    while i < headers.len()
        invariant
            i <= headers@.len(),
            hv == header_view(headers@),
            found == (exists|k: int| 0 <= k < i && (#[trigger] hv[k]).0 == "runtime"@),
            header_view(out@) == hv.take(i as int).map_values(|p: (Seq<char>, Seq<char>)| if p.0 == "runtime"@ { (p.0, step.runtime@) } else { p }),
        decreases headers@.len() - i,
    {
        let is_rt = str_eq(headers[i].0.as_str(), "runtime");
        let v = if is_rt { step.runtime.clone() } else { headers[i].1.clone() };
        let ghost before = out@;
        out.push((headers[i].0.clone(), v));
        if is_rt {
            found = true;
        }
        proof {
            let f = |p: (Seq<char>, Seq<char>)| if p.0 == "runtime"@ { (p.0, step.runtime@) } else { p };
            assert(hv[i as int] == (headers@[i as int].0@, headers@[i as int].1@));
            assert(out@.drop_last() == before);
            assert(header_view(before).len() == before.len());
            assert(hv.take(i as int).map_values(f).len() == i);
            assert(before.len() == i);
            assert forall|k: int| 0 <= k < i + 1 implies header_view(out@)[k] == hv.take(i + 1).map_values(f)[k] by {
                if k < i {
                    assert(out@[k] == before[k]);
                    assert(header_view(before)[k] == hv.take(i as int).map_values(f)[k]);
                    assert(hv.take(i as int)[k] == hv.take(i + 1)[k]);
                }
            }
            assert(header_view(out@) =~= hv.take(i + 1).map_values(f));
        }
        i += 1;
    }
    proof {
        assert(hv.take(hv.len() as int) =~= hv);
    }
    if !found {
        out.push(("runtime".to_owned(), step.runtime.clone()));
        proof {
            assert(header_view(out@) =~= header_view(out@.drop_last()).push(("runtime"@, step.runtime@)));
            assert forall|k: int| 0 <= k < hv.len() implies (#[trigger] hv[k]).0 != "runtime"@ by {}
            assert(hv.map_values(|p: (Seq<char>, Seq<char>)| if p.0 == "runtime"@ { (p.0, step.runtime@) } else { p }) =~= hv);
        }
    }
    (reply, out)
}

} // verus!
