//! A council of model providers: each drafts an answer, the others review
//! it, and the first provider writes the synthesis. The calls and the
//! (floating-point) scores are the caller's; this module decides who
//! reviews what and writes the prompts.
use vstd::prelude::*;
use crate::agentic::ChatMessage;
use crate::planner::{user_request_chars, user_texts};
use crate::text::{append_chars, append_str, chars_of, joined, str_eq, string_of, u64_to_decimal, decimal};

verus! {

/// The question the council answers: the user messages joined by newlines.
pub fn council_question(messages: &[ChatMessage]) -> (q: String)
    ensures
        q@ == joined(user_texts(messages@), "\n"@),
{
    let v = user_request_chars(messages);
    string_of(v.as_slice())
}

/// The prompt asking another provider to score the draft `content` of `provider`.
pub open spec fn critique_prompt_text(question: Seq<char>, provider: Seq<char>, content: Seq<char>) -> Seq<char> {
    "You are a critical judge. The user asked:\n\""@ + question + "\"\n\nProvider \""@ + provider
        + "\" answered:\n\""@ + content
        + "\"\n\nScore this answer from 0 to 10 on accuracy, completeness, and helpfulness.\nRespond with ONLY a JSON object: {\"score\": <number>}\nDo not include any other text."@
}

/// The critique prompt (see `critique_prompt_text`).
pub fn critique_prompt(question: &str, provider: &str, content: &str) -> (p: String)
    ensures
        p@ == critique_prompt_text(question@, provider@, content@),
{
    let mut v = chars_of("You are a critical judge. The user asked:\n\"");
    append_str(&mut v, question);
    append_str(&mut v, "\"\n\nProvider \"");
    append_str(&mut v, provider);
    append_str(&mut v, "\" answered:\n\"");
    append_str(&mut v, content);
    append_str(&mut v, "\"\n\nScore this answer from 0 to 10 on accuracy, completeness, and helpfulness.\nRespond with ONLY a JSON object: {\"score\": <number>}\nDo not include any other text.");
    string_of(v.as_slice())
}

/// The reviews of draft `d` (written by `author`) among the first providers
/// of `providers`: one per provider of another name, in provider order, as
/// (draft, reviewing provider) index pairs.
pub open spec fn reviews_of(d: usize, author: Seq<char>, providers: Seq<Seq<char>>) -> Seq<(usize, usize)>
    decreases providers.len(),
{
    if providers.len() == 0 {
        Seq::empty()
    } else {
        let rest = reviews_of(d, author, providers.drop_last());
        if providers.last() == author {
            rest
        } else {
            rest.push((d, (providers.len() - 1) as usize))
        }
    }
}

/// All reviews of the drafts, draft by draft: every provider reviews every
/// draft but those written under its own name.
pub open spec fn review_plan(authors: Seq<Seq<char>>, providers: Seq<Seq<char>>) -> Seq<(usize, usize)>
    decreases authors.len(),
{
    if authors.len() == 0 {
        Seq::empty()
    } else {
        review_plan(authors.drop_last(), providers) + reviews_of((authors.len() - 1) as usize, authors.last(), providers)
    }
}

/// The reviews of one draft are exactly the providers of another name.
proof fn lemma_reviews_of_exact(d: usize, author: Seq<char>, providers: Seq<Seq<char>>)
    requires
        providers.len() <= usize::MAX,
    ensures
        forall|k: int| 0 <= k < reviews_of(d, author, providers).len() ==> ({
            let (e, r) = #[trigger] reviews_of(d, author, providers)[k];
            e == d && r < providers.len() && providers[r as int] != author
        }),
        forall|r: usize| r < providers.len() && providers[r as int] != author ==>
            #[trigger] reviews_of(d, author, providers).contains((d, r)),
    decreases providers.len(),
{
    if providers.len() > 0 {
        let init = providers.drop_last();
        lemma_reviews_of_exact(d, author, init);
        let rest = reviews_of(d, author, init);
        let all = reviews_of(d, author, providers);
        assert forall|k: int| 0 <= k < all.len() implies ({
            let (e, r) = #[trigger] all[k];
            e == d && r < providers.len() && providers[r as int] != author
        }) by {
            if k < rest.len() {
                assert(all[k] == rest[k]);
                assert(init[rest[k].1 as int] == providers[rest[k].1 as int]);
            } else {
                assert(all[k] == (d, (providers.len() - 1) as usize));
                assert(providers.last() != author);
            }
        }
        assert forall|r: usize| r < providers.len() && providers[r as int] != author implies
            #[trigger] all.contains((d, r)) by {
            if r < init.len() {
                assert(init[r as int] == providers[r as int]);
                assert(rest.contains((d, r)));
                let k = choose|k: int| 0 <= k < rest.len() && rest[k] == (d, r);
                assert(all[k] == rest[k]);
            } else {
                assert(all[rest.len() as int] == (d, r));
            }
        }
    }
}

/// The council's review plan is exact: it pairs each draft with every
/// provider whose name differs from the draft's author, and with no other;
/// no provider ever reviews a draft written under its own name.
pub proof fn lemma_review_plan_exact(authors: Seq<Seq<char>>, providers: Seq<Seq<char>>)
    requires
        authors.len() <= usize::MAX,
        providers.len() <= usize::MAX,
    ensures
        forall|k: int| 0 <= k < review_plan(authors, providers).len() ==> ({
            let (d, r) = #[trigger] review_plan(authors, providers)[k];
            d < authors.len() && r < providers.len() && providers[r as int] != authors[d as int]
        }),
        forall|d: usize, r: usize| d < authors.len() && r < providers.len() && providers[r as int] != authors[d as int] ==>
            #[trigger] review_plan(authors, providers).contains((d, r)),
    decreases authors.len(),
{
    if authors.len() > 0 {
        let init = authors.drop_last();
        let last = (authors.len() - 1) as usize;
        lemma_review_plan_exact(init, providers);
        lemma_reviews_of_exact(last, authors.last(), providers);
        let rest = review_plan(init, providers);
        let mine = reviews_of(last, authors.last(), providers);
        let all = review_plan(authors, providers);
        assert forall|k: int| 0 <= k < all.len() implies ({
            let (d, r) = #[trigger] all[k];
            d < authors.len() && r < providers.len() && providers[r as int] != authors[d as int]
        }) by {
            if k < rest.len() {
                assert(all[k] == rest[k]);
                assert(init[rest[k].0 as int] == authors[rest[k].0 as int]);
            } else {
                assert(all[k] == mine[k - rest.len()]);
                assert(mine[k - rest.len()].0 == last);
            }
        }
        assert forall|d: usize, r: usize| d < authors.len() && r < providers.len() && providers[r as int] != authors[d as int] implies
            #[trigger] all.contains((d, r)) by {
            if d < init.len() {
                assert(init[d as int] == authors[d as int]);
                assert(rest.contains((d, r)));
                let k = choose|k: int| 0 <= k < rest.len() && rest[k] == (d, r);
                assert(all[k] == rest[k]);
            } else {
                assert(mine.contains((d, r)));
                let k = choose|k: int| 0 <= k < mine.len() && mine[k] == (d, r);
                assert(all[rest.len() + k] == mine[k]);
            }
        }
    }
}

/// Who reviews which draft (see `review_plan`); `authors` are the names
/// the drafts were written under, `providers` the council's names.
pub fn plan_reviews(authors: &[String], providers: &[String]) -> (r: Vec<(usize, usize)>)
    ensures
        r@ == review_plan(crate::text::strings_view(authors@), crate::text::strings_view(providers@)),
{
    let ghost pv = crate::text::strings_view(providers@);
    let ghost av = crate::text::strings_view(authors@);
    let mut out: Vec<(usize, usize)> = Vec::new();
    let mut d: usize = 0;
    while d < authors.len()
        invariant
            d <= authors@.len(),
            pv == crate::text::strings_view(providers@),
            av == crate::text::strings_view(authors@),
            out@ == review_plan(av.take(d as int), pv),
        decreases authors@.len() - d,
    {
        let ghost base = out@;
        let mut r: usize = 0;
        while r < providers.len()
            invariant
                d < authors@.len(),
                r <= providers@.len(),
                pv == crate::text::strings_view(providers@),
                av == crate::text::strings_view(authors@),
                base == review_plan(av.take(d as int), pv),
                out@ == base + reviews_of(d, av[d as int], pv.take(r as int)),
            decreases providers@.len() - r,
        {
            assert(pv.take(r + 1).drop_last() =~= pv.take(r as int));
            assert(pv.take(r + 1).last() == providers@[r as int]@);
            if !str_eq(providers[r].as_str(), authors[d].as_str()) {
                out.push((d, r));
                assert(out@ =~= base + reviews_of(d, av[d as int], pv.take(r + 1)));
            } else {
                assert(out@ =~= base + reviews_of(d, av[d as int], pv.take(r + 1)));
            }
            r += 1;
        }
        assert(pv.take(providers@.len() as int) =~= pv);
        assert(av.take(d + 1).drop_last() =~= av.take(d as int));
        assert(av.take(d + 1).last() == av[d as int]);
        d += 1;
    }
    assert(av.take(authors@.len() as int) =~= av);
    out
}

/// One draft's entry in the synthesis prompt: its number (from 1), its
/// provider, its score as text, and its content.
pub open spec fn draft_entry(n: nat, draft: (Seq<char>, Seq<char>, Seq<char>)) -> Seq<char> {
    "--- Draft "@ + decimal(n) + " (from '"@ + draft.0 + "', score: "@ + draft.2 + ") ---\n"@ + draft.1 + "\n\n"@
}

/// The entries of the ranked drafts, in order.
pub open spec fn draft_summary(drafts: Seq<(Seq<char>, Seq<char>, Seq<char>)>) -> Seq<char>
    decreases drafts.len(),
{
    if drafts.len() == 0 {
        Seq::empty()
    } else {
        draft_summary(drafts.drop_last()) + draft_entry(drafts.len(), drafts.last())
    }
}

/// The prompt asking the first provider to combine the ranked drafts.
pub open spec fn synthesis_prompt_text(question: Seq<char>, drafts: Seq<(Seq<char>, Seq<char>, Seq<char>)>) -> Seq<char> {
    "You are a synthesis expert. The user asked:\n\""@ + question
        + "\"\n\nMultiple experts have provided answers, ranked by peer review score (highest first):\n\n"@
        + draft_summary(drafts)
        + "Produce a single, authoritative answer that combines the best elements from the top-scoring drafts. Be concise and accurate. Do not mention the drafts or the scoring process in your answer."@
}

/// The drafts as plain text: provider, content and score text.
pub open spec fn drafts_view(drafts: Seq<(String, String, String)>) -> Seq<(Seq<char>, Seq<char>, Seq<char>)> {
    drafts.map_values(|d: (String, String, String)| (d.0@, d.1@, d.2@))
}

/// The synthesis prompt (see `synthesis_prompt_text`); each draft is its
/// provider, its content and its score as text (`8.5/10`, or `unscored`).
pub fn synthesis_prompt(question: &str, drafts: &[(String, String, String)]) -> (p: String)
    ensures
        p@ == synthesis_prompt_text(question@, drafts_view(drafts@)),
{
    let ghost dv = drafts_view(drafts@);
    let mut summary: Vec<char> = Vec::new();
    let mut i: usize = 0;
    while i < drafts.len()
        invariant
            i <= drafts@.len(),
            dv == drafts_view(drafts@),
            summary@ == draft_summary(dv.take(i as int)),
        decreases drafts@.len() - i,
    {
        let n: u64 = (i + 1) as u64;
        let ghost before = summary@;
        append_str(&mut summary, "--- Draft ");
        let digits = u64_to_decimal(n);
        append_chars(&mut summary, digits.as_slice());
        append_str(&mut summary, " (from '");
        append_str(&mut summary, drafts[i].0.as_str());
        append_str(&mut summary, "', score: ");
        append_str(&mut summary, drafts[i].2.as_str());
        append_str(&mut summary, ") ---\n");
        append_str(&mut summary, drafts[i].1.as_str());
        append_str(&mut summary, "\n\n");
        proof {
            assert(dv.take(i + 1).drop_last() =~= dv.take(i as int));
            assert(dv.take(i + 1).last() == dv[i as int]);
            assert(dv[i as int] == (drafts@[i as int].0@, drafts@[i as int].1@, drafts@[i as int].2@));
            assert(summary@ =~= before + draft_entry((i + 1) as nat, dv[i as int]));
        }
        i += 1;
    }
    assert(dv.take(drafts@.len() as int) =~= dv);
    let mut p = chars_of("You are a synthesis expert. The user asked:\n\"");
    append_str(&mut p, question);
    append_str(&mut p, "\"\n\nMultiple experts have provided answers, ranked by peer review score (highest first):\n\n");
    append_chars(&mut p, summary.as_slice());
    append_str(&mut p, "Produce a single, authoritative answer that combines the best elements from the top-scoring drafts. Be concise and accurate. Do not mention the drafts or the scoring process in your answer.");
    string_of(p.as_slice())
}

/// The messages of a council request: the system context, when there is
/// one, then `messages`.
pub fn with_system_context(system_context: Option<&str>, messages: &[ChatMessage]) -> (r: Vec<ChatMessage>)
    ensures
        system_context matches Some(c) ==> r@.len() == messages@.len() + 1 && r@[0].role@ == "system"@
            && r@[0].content@ == c@ && r@.skip(1) == messages@,
        system_context is None ==> r@ == messages@,
{
    let mut out: Vec<ChatMessage> = Vec::new();
    let off: usize = match system_context {
        Some(c) => {
            out.push(ChatMessage { role: String::from_str("system"), content: String::from_str(c) });
            proof {
                reveal_strlit("system");
            }
            1
        },
        None => 0,
    };
    let mut i: usize = 0;
    while i < messages.len()
        invariant
            i <= messages@.len(),
            off == (if system_context is Some { 1usize } else { 0usize }),
            out@.len() == off + i,
            system_context matches Some(c) ==> out@[0].role@ == "system"@ && out@[0].content@ == c@,
            out@.skip(off as int) == messages@.take(i as int),
        decreases messages@.len() - i,
    {
        let m = ChatMessage { role: messages[i].role.clone(), content: messages[i].content.clone() };
        out.push(m);
        assert(out@.skip(off as int) =~= messages@.take(i + 1));
        i += 1;
    }
    assert(messages@.take(messages@.len() as int) =~= messages@);
    assert(out@.skip(0) =~= out@);
    out
}

} // verus!
