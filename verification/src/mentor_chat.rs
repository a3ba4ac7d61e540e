//! Mentor chat envelopes: the request a chat turn publishes, the enrichment a
//! monitor applies to it, and how the enriched preprompt joins a prompt.
use vstd::prelude::*;
use crate::clock::now_rfc3339;
use crate::text::{append_chars, append_str, chars_of, str_eq, string_of, trim, trim_chars};

verus! {

/// Stream that carries chat envelopes.
pub const STREAM: &'static str = "entity";
/// Topic of chat envelopes.
pub const CHAT_TOPIC: &'static str = "chat-topic";
/// Consumer group of the enriching monitor.
pub const MONITOR_GROUP: &'static str = "mentor-chat-monitor";

/// One chat turn on its way to (stage `request`) or back from (stage
/// `enriched`) the mentor monitor.
#[derive(Debug, Clone)]
pub struct MentorChatEnvelope {
    pub correlation_id: String,
    pub session_id: String,
    pub entity_id: String,
    pub message: String,
    pub selected_model: Option<String>,
    pub stage: String,
    pub enriched_preprompt: Option<String>,
    pub id_context: Option<String>,
    pub superego_context: Option<String>,
    /// RFC 3339 time of creation.
    pub created_at_utc: String,
}

/// The model named in the fallback preprompt: the selected one, or `default`.
pub open spec fn model_label(selected: Option<String>) -> Seq<char> {
    match selected {
        Some(m) => m@,
        None => "default"@,
    }
}

/// The preprompt used when no stored context could be loaded.
pub open spec fn fallback_text(
    correlation: Seq<char>,
    model: Seq<char>,
    id_context: Seq<char>,
    superego_context: Seq<char>,
) -> Seq<char> {
    "Mentor monitor context:\n- correlation: "@ + correlation + "\n- selected model subscriber: "@
        + model + "\n- id context: "@ + id_context + "\n- superego context: "@ + superego_context
        + "\n- out-of-band observers: memory/id/superego non-blocking"@
}

/// The header pairs, as character sequences.
pub open spec fn pairs_view(h: Seq<(String, String)>) -> Seq<(Seq<char>, Seq<char>)> {
    h.map_values(|p: (String, String)| (p.0@, p.1@))
}

impl MentorChatEnvelope {
    /// A new request envelope, stamped with the current time.
    pub fn request(
        correlation_id: String,
        session_id: String,
        entity_id: String,
        message: String,
        selected_model: Option<String>,
    ) -> (e: MentorChatEnvelope)
        ensures
            e.correlation_id == correlation_id,
            e.session_id == session_id,
            e.entity_id == entity_id,
            e.message == message,
            e.selected_model == selected_model,
            e.stage@ == "request"@,
            e.enriched_preprompt is None,
            e.id_context is None,
            e.superego_context is None,
    {
        proof {
            reveal_strlit("request");
        }
        MentorChatEnvelope {
            correlation_id,
            session_id,
            entity_id,
            message,
            selected_model,
            stage: String::from_str("request"),
            enriched_preprompt: None,
            id_context: None,
            superego_context: None,
            created_at_utc: now_rfc3339(),
        }
    }

    /// Whether the envelope is already enriched.
    pub fn is_enriched(&self) -> (b: bool)
        ensures
            b == (self.stage@ == "enriched"@),
    {
        str_eq(self.stage.as_str(), "enriched")
    }

    /// The fallback preprompt for this envelope, given the id and superego
    /// contexts inferred from its message.
    pub fn fallback_preprompt(&self, id_context: &str, superego_context: &str) -> (p: String)
        ensures
            p@ == fallback_text(self.correlation_id@, model_label(self.selected_model), id_context@, superego_context@),
    {
        proof {
            reveal_strlit("default");
        }
        let mut out: Vec<char> = Vec::new();
        append_str(&mut out, "Mentor monitor context:\n- correlation: ");
        append_str(&mut out, self.correlation_id.as_str());
        append_str(&mut out, "\n- selected model subscriber: ");
        match &self.selected_model {
            Some(m) => append_str(&mut out, m.as_str()),
            None => append_str(&mut out, "default"),
        }
        append_str(&mut out, "\n- id context: ");
        append_str(&mut out, id_context);
        append_str(&mut out, "\n- superego context: ");
        append_str(&mut out, superego_context);
        append_str(&mut out, "\n- out-of-band observers: memory/id/superego non-blocking");
        string_of(out.as_slice())
    }

    /// The monitor's answer to an envelope: `None` for one already enriched;
    /// otherwise the envelope at stage `enriched` with both contexts and the
    /// preprompt (`loaded` when the stored context could be read, else the
    /// fallback), and the headers to publish it with.
    pub fn enrich(self, id_context: String, superego_context: String, loaded: Option<String>) -> (r: Option<(MentorChatEnvelope, Vec<(String, String)>)>)
        ensures
            (self.stage@ == "enriched"@) ==> r is None,
            (self.stage@ != "enriched"@) ==> r is Some,
            r matches Some((e, h)) ==> {
                &&& e.correlation_id == self.correlation_id
                &&& e.session_id == self.session_id
                &&& e.entity_id == self.entity_id
                &&& e.message == self.message
                &&& e.selected_model == self.selected_model
                &&& e.created_at_utc == self.created_at_utc
                &&& e.stage@ == "enriched"@
                &&& e.id_context == Some(id_context)
                &&& e.superego_context == Some(superego_context)
                &&& e.enriched_preprompt matches Some(p) && p@ == (match loaded {
                    Some(l) => l@,
                    None => fallback_text(self.correlation_id@, model_label(self.selected_model), id_context@, superego_context@),
                })
                &&& pairs_view(h@) == seq![
                    ("stage"@, "enriched"@),
                    ("correlation_id"@, self.correlation_id@),
                    ("entity_id"@, self.entity_id@),
                    ("id_context"@, id_context@),
                    ("superego_context"@, superego_context@),
                ]
            },
    {
        if self.is_enriched() {
            return None;
        }
        proof {
            reveal_strlit("enriched");
        }
        let preprompt = match loaded {
            Some(l) => l,
            None => self.fallback_preprompt(id_context.as_str(), superego_context.as_str()),
        };
        let mut h: Vec<(String, String)> = Vec::new();
        h.push((String::from_str("stage"), String::from_str("enriched")));
        h.push((String::from_str("correlation_id"), self.correlation_id.clone()));
        h.push((String::from_str("entity_id"), self.entity_id.clone()));
        h.push((String::from_str("id_context"), id_context.clone()));
        h.push((String::from_str("superego_context"), superego_context.clone()));
        proof {
            reveal_strlit("stage");
            reveal_strlit("correlation_id");
            reveal_strlit("entity_id");
            reveal_strlit("id_context");
            reveal_strlit("superego_context");
            assert(pairs_view(h@) =~= seq![
                ("stage"@, "enriched"@),
                ("correlation_id"@, self.correlation_id@),
                ("entity_id"@, self.entity_id@),
                ("id_context"@, id_context@),
                ("superego_context"@, superego_context@),
            ]);
        }
        let e = MentorChatEnvelope {
            correlation_id: self.correlation_id,
            session_id: self.session_id,
            entity_id: self.entity_id,
            message: self.message,
            selected_model: self.selected_model,
            stage: String::from_str("enriched"),
            enriched_preprompt: Some(preprompt),
            id_context: Some(id_context),
            superego_context: Some(superego_context),
            created_at_utc: self.created_at_utc,
        };
        Some((e, h))
    }

    /// Whether this envelope answers the request with `correlation_id`: it is
    /// enriched, carries that id and holds a preprompt.
    pub fn answers(&self, correlation_id: &str) -> (b: bool)
        ensures
            b == (self.stage@ == "enriched"@ && self.correlation_id@ == correlation_id@
                && self.enriched_preprompt is Some),
    {
        self.is_enriched() && str_eq(self.correlation_id.as_str(), correlation_id)
            && self.enriched_preprompt.is_some()
    }
}

/// Headers of a published request envelope.
pub fn request_headers(correlation_id: String, subscriber_group: String) -> (h: Vec<(String, String)>)
    ensures
        pairs_view(h@) == seq![
            ("stage"@, "request"@),
            ("correlation_id"@, correlation_id@),
            ("entity_subscriber_group"@, subscriber_group@),
        ],
{
    let mut h: Vec<(String, String)> = Vec::new();
    h.push((String::from_str("stage"), String::from_str("request")));
    h.push((String::from_str("correlation_id"), correlation_id));
    h.push((String::from_str("entity_subscriber_group"), subscriber_group));
    proof {
        reveal_strlit("stage");
        reveal_strlit("request");
        reveal_strlit("correlation_id");
        reveal_strlit("entity_subscriber_group");
    }
    h
}

/// The prompt with a mentor section appended.
pub open spec fn injected(base: Seq<char>, preprompt: Option<String>) -> Seq<char> {
    match preprompt {
        Some(p) => if trim(p@).len() > 0 {
            base + "\n\n## Mentor Monitor\n"@ + p@ + "\n"@
        } else {
            base
        },
        None => base,
    }
}

/// Appends a `## Mentor Monitor` section holding the preprompt, unless it is
/// absent or blank.
pub fn inject_preprompt(base_prompt: &str, preprompt: Option<String>) -> (r: String)
    ensures
        r@ == injected(base_prompt@, preprompt),
{
    match preprompt {
        Some(p) => {
            let pc = chars_of(p.as_str());
            let t = trim_chars(pc.as_slice());
            if t.len() > 0 {
                let mut out = chars_of(base_prompt);
                append_str(&mut out, "\n\n## Mentor Monitor\n");
                append_chars(&mut out, pc.as_slice());
                append_str(&mut out, "\n");
                string_of(out.as_slice())
            } else {
                String::from_str(base_prompt)
            }
        },
        None => String::from_str(base_prompt),
    }
}

} // verus!
