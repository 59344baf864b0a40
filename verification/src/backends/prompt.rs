//! Chat prompts for GGUF models, written with the chat template the engine detected.
//!
//! The prompt carries the template's own markers, so that the engine, which wraps
//! any prompt without markers once more, passes it through unchanged.
use crate::inference::request::message_texts;
use crate::inference::ChatMessage;
use crate::text::text_eq;
use llama_rs::ChatTemplate;
use vstd::prelude::*;

verus! {

/// The chat template formats an engine can detect (`llama_rs::ChatTemplate`); `Plain` is
/// the engine's `None`, raw text without markers.
#[derive(Debug, Clone, Copy, PartialEq, Eq, Structural)]
pub enum PromptTemplate {
    UserAssistant,
    ChatML,
    Llama2,
    Plain,
}

/// `p` holds `marker` somewhere.
pub open spec fn holds_marker(p: Seq<char>, marker: Seq<char>) -> bool {
    exists|i: int| 0 <= i && i + marker.len() <= p.len() && #[trigger] p.subrange(i, i + marker.len()) == marker
}

/// `p` already holds one of the markers that open a chat turn.
pub open spec fn has_chat_markers(p: Seq<char>) -> bool {
    ||| holds_marker(p, "<|user|>"@)
    ||| holds_marker(p, "<|im_start|>"@)
    ||| holds_marker(p, "[INST]"@)
}

/// What `ChatTemplate::wrap_prompt` returns: the prompt unchanged when it already holds chat
/// markers, else the prompt as a single user turn that ends where the assistant answers.
pub open spec fn wrapped_prompt(t: PromptTemplate, p: Seq<char>) -> Seq<char> {
    if has_chat_markers(p) {
        p
    } else {
        match t {
            PromptTemplate::UserAssistant => "<|user|>\n"@ + p + "<|assistant|>\n"@,
            PromptTemplate::ChatML => "<|im_start|>user\n"@ + p + "<|im_end|>\n<|im_start|>assistant\n"@,
            PromptTemplate::Llama2 => "[INST] "@ + p + " [/INST]"@,
            PromptTemplate::Plain => p,
        }
    }
}

/// What `ChatTemplate::format_first_turn` returns: a system turn, a user turn, and the
/// opening of the assistant's answer.
pub open spec fn first_turn(t: PromptTemplate, system: Seq<char>, user: Seq<char>) -> Seq<char> {
    match t {
        PromptTemplate::UserAssistant => "<|system|>\n"@ + system + "<|user|>\n"@ + user + "<|assistant|>\n"@,
        PromptTemplate::ChatML => "<|im_start|>system\n"@ + system + "<|im_end|>\n<|im_start|>user\n"@ + user
            + "<|im_end|>\n<|im_start|>assistant\n"@,
        PromptTemplate::Llama2 => "[INST] <<SYS>>\n"@ + system + "\n<</SYS>>\n\n"@ + user + " [/INST]"@,
        PromptTemplate::Plain => "System: "@ + system + "\n\nUser: "@ + user + "\n\nAssistant:"@,
    }
}

/// What `ChatTemplate::format_continuation` returns: a further user turn and the opening
/// of the assistant's answer.
pub open spec fn continuation_turn(t: PromptTemplate, user: Seq<char>) -> Seq<char> {
    match t {
        PromptTemplate::UserAssistant => "<|user|>\n"@ + user + "<|assistant|>\n"@,
        PromptTemplate::ChatML => "<|im_start|>user\n"@ + user + "<|im_end|>\n<|im_start|>assistant\n"@,
        PromptTemplate::Llama2 => " [INST] "@ + user + " [/INST]"@,
        PromptTemplate::Plain => "\n\nUser: "@ + user + "\n\nAssistant:"@,
    }
}

/// Calls `llama_rs::ChatTemplate::wrap_prompt` on the template of the same name; the contract
/// states the result as that function's source writes it (`wrapped_prompt`).
#[verifier::external_body]
fn wrap_prompt(t: PromptTemplate, prompt: &str) -> (r: String)
    ensures
        r@ == wrapped_prompt(t, prompt@),
{
    let template = match t {
        PromptTemplate::UserAssistant => ChatTemplate::UserAssistant,
        PromptTemplate::ChatML => ChatTemplate::ChatML,
        PromptTemplate::Llama2 => ChatTemplate::Llama2,
        PromptTemplate::Plain => ChatTemplate::None,
    };
    template.wrap_prompt(prompt)
}

/// Calls `llama_rs::ChatTemplate::format_first_turn` on the template of the same name; the
/// contract states the result as that function's source writes it (`first_turn`).
#[verifier::external_body]
fn format_first_turn(t: PromptTemplate, system: &str, user: &str) -> (r: String)
    ensures
        r@ == first_turn(t, system@, user@),
{
    let template = match t {
        PromptTemplate::UserAssistant => ChatTemplate::UserAssistant,
        PromptTemplate::ChatML => ChatTemplate::ChatML,
        PromptTemplate::Llama2 => ChatTemplate::Llama2,
        PromptTemplate::Plain => ChatTemplate::None,
    };
    template.format_first_turn(system, user)
}

/// Calls `llama_rs::ChatTemplate::format_continuation` on the template of the same name; the
/// contract states the result as that function's source writes it (`continuation_turn`).
#[verifier::external_body]
fn format_continuation(t: PromptTemplate, user: &str) -> (r: String)
    ensures
        r@ == continuation_turn(t, user@),
{
    let template = match t {
        PromptTemplate::UserAssistant => ChatTemplate::UserAssistant,
        PromptTemplate::ChatML => ChatTemplate::ChatML,
        PromptTemplate::Llama2 => ChatTemplate::Llama2,
        PromptTemplate::Plain => ChatTemplate::None,
    };
    template.format_continuation(user)
}

/// `m` was sent in the given role.
pub open spec fn has_role(m: ChatMessage, role: Seq<char>) -> bool {
    m.role@ == role
}

/// The content of the first system message, if there is one.
pub open spec fn first_system(msgs: Seq<ChatMessage>) -> Option<Seq<char>>
    decreases msgs.len(),
{
    if msgs.len() == 0 {
        None
    } else {
        match first_system(msgs.drop_last()) {
            Some(c) => Some(c),
            None => if has_role(msgs.last(), "system"@) { Some(msgs.last().content@) } else { None },
        }
    }
}

/// The messages that are not system messages, in order.
pub open spec fn non_system(msgs: Seq<ChatMessage>) -> Seq<ChatMessage>
    decreases msgs.len(),
{
    if msgs.len() == 0 {
        Seq::empty()
    } else {
        non_system(msgs.drop_last()) + if has_role(msgs.last(), "system"@) {
            Seq::empty()
        } else {
            seq![msgs.last()]
        }
    }
}

/// Some of the first `n` messages of `ns` comes from the user.
pub open spec fn user_seen(ns: Seq<ChatMessage>, n: int) -> bool
    decreases n,
{
    if n <= 0 {
        false
    } else {
        user_seen(ns, n - 1) || has_role(ns[n - 1], "user"@)
    }
}

/// The text that message `k` of the non-system messages `ns` adds to the prompt. The first
/// user message opens the conversation (with the system message, if any); later user
/// messages continue it; an assistant message is copied as it is, followed by a line break
/// unless a user message comes next; messages in other roles add nothing.
pub open spec fn turn_text(t: PromptTemplate, system: Option<Seq<char>>, ns: Seq<ChatMessage>, k: int) -> Seq<char> {
    let m = ns[k];
    if has_role(m, "user"@) {
        if !user_seen(ns, k) {
            match system {
                Some(s) => first_turn(t, s, m.content@),
                None => wrapped_prompt(t, m.content@),
            }
        } else {
            continuation_turn(t, m.content@)
        }
    } else if has_role(m, "assistant"@) {
        if k + 1 < ns.len() && has_role(ns[k + 1], "user"@) {
            m.content@
        } else {
            m.content@ + "\n"@
        }
    } else {
        Seq::empty()
    }
}

/// The prompt made of the first `n` non-system messages.
pub open spec fn prompt_prefix(t: PromptTemplate, system: Option<Seq<char>>, ns: Seq<ChatMessage>, n: int) -> Seq<char>
    decreases n,
{
    if n <= 0 {
        Seq::empty()
    } else {
        prompt_prefix(t, system, ns, n - 1) + turn_text(t, system, ns, n - 1)
    }
}

/// The chat prompt for a conversation; empty when it holds only system messages.
pub open spec fn chat_prompt(t: PromptTemplate, msgs: Seq<ChatMessage>) -> Seq<char> {
    let ns = non_system(msgs);
    prompt_prefix(t, first_system(msgs), ns, ns.len() as int)
}

fn role_is(m: &ChatMessage, role: &str) -> (r: bool)
    ensures
        r == has_role(*m, role@),
{
    text_eq(m.role.as_str(), role)
}

/// Builds the chat prompt for `messages` with the given template.
pub fn build_chat_prompt(template: PromptTemplate, messages: &Vec<ChatMessage>) -> (r: String)
    ensures
        r@ == chat_prompt(template, messages@),
{
    let n = messages.len();
    let mut system: Option<usize> = None;
    let mut rest: Vec<usize> = Vec::new();
    for i in 0..n
        invariant
            n == messages@.len(),
            match system {
                Some(j) => j < i && first_system(messages@.take(i as int)) == Some(messages@[j as int].content@),
                None => first_system(messages@.take(i as int)) is None,
            },
            rest@.len() == non_system(messages@.take(i as int)).len(),
            forall|k: int| 0 <= k < rest@.len() ==> #[trigger] rest@[k] < i
                && messages@[rest@[k] as int] == non_system(messages@.take(i as int))[k],
    {
        let ghost prev = messages@.take(i as int);
        assert(messages@.take(i + 1).drop_last() =~= prev);
        assert(messages@.take(i + 1).last() == messages@[i as int]);
        if role_is(&messages[i], "system") {
            if system.is_none() {
                system = Some(i);
            }
        } else {
            rest.push(i);
        }
    }
    assert(messages@.take(n as int) =~= messages@);
    let ghost sys = first_system(messages@);
    let ghost ns = non_system(messages@);
    let m = rest.len();
    let mut prompt = String::new();
    if m == 0 {
        return prompt;
    }
    let mut first_user_handled = false;
    for k in 0..m
        invariant
            n == messages@.len(),
            m == rest@.len(),
            m == ns.len(),
            sys == first_system(messages@),
            ns == non_system(messages@),
            match system {
                Some(j) => j < n && sys == Some(messages@[j as int].content@),
                None => sys is None,
            },
            forall|q: int| 0 <= q < m ==> #[trigger] rest@[q] < n && messages@[rest@[q] as int] == ns[q],
            prompt@ == prompt_prefix(template, sys, ns, k as int),
            first_user_handled == user_seen(ns, k as int),
    {
        let msg = &messages[rest[k]];
        assert(*msg == ns[k as int]);
        if role_is(msg, "user") {
            if !first_user_handled {
                first_user_handled = true;
                match system {
                    Some(j) => {
                        let turn = format_first_turn(template, messages[j].content.as_str(), msg.content.as_str());
                        prompt.append(turn.as_str());
                    },
                    None => {
                        let turn = wrap_prompt(template, msg.content.as_str());
                        prompt.append(turn.as_str());
                    },
                }
            } else {
                let turn = format_continuation(template, msg.content.as_str());
                prompt.append(turn.as_str());
            }
        } else if role_is(msg, "assistant") {
            let has_next_user = k + 1 < m && role_is(&messages[rest[k + 1]], "user");
            prompt.append(msg.content.as_str());
            if !has_next_user {
                prompt.append("\n");
            }
        }
    }
    prompt
}

/// A marker inside `x` stays inside `x` with text added on either side.
pub proof fn lemma_marker_in_concat(a: Seq<char>, x: Seq<char>, c: Seq<char>, marker: Seq<char>)
    requires
        holds_marker(x, marker),
    ensures
        holds_marker(a + x + c, marker),
{
    let i = choose|i: int| 0 <= i && i + marker.len() <= x.len() && #[trigger] x.subrange(i, i + marker.len()) == marker;
    let j = i + a.len();
    assert((a + x + c).subrange(j, j + marker.len()) =~= x.subrange(i, i + marker.len()));
}

/// A literal that starts with `marker` holds it.
proof fn lemma_starts_with_marker(lit: Seq<char>, marker: Seq<char>)
    requires
        marker.len() <= lit.len(),
        lit.subrange(0, marker.len() as int) == marker,
    ensures
        holds_marker(lit, marker),
{
    assert(lit.subrange(0int, 0int + marker.len()) == marker);
}

/// With a template that has markers, the opening turn of a conversation holds a chat marker,
/// whether or not there is a system message.
proof fn lemma_opening_turn_marked(t: PromptTemplate, system: Option<Seq<char>>, user: Seq<char>)
    requires
        t != PromptTemplate::Plain,
    ensures
        has_chat_markers(match system {
            Some(s) => first_turn(t, s, user),
            None => wrapped_prompt(t, user),
        }),
{
    reveal_strlit("<|user|>");
    reveal_strlit("<|im_start|>");
    reveal_strlit("[INST]");
    reveal_strlit("<|user|>\n");
    reveal_strlit("<|im_start|>user\n");
    reveal_strlit("[INST] ");
    reveal_strlit("<|system|>\n");
    reveal_strlit("<|im_start|>system\n");
    reveal_strlit("[INST] <<SYS>>\n");
    let e = Seq::<char>::empty();
    match system {
        Some(s) => {
            match t {
                PromptTemplate::UserAssistant => {
                    let lit = "<|user|>\n"@;
                    assert(lit.subrange(0, 8) =~= "<|user|>"@);
                    lemma_starts_with_marker(lit, "<|user|>"@);
                    let rest = user + "<|assistant|>\n"@;
                    lemma_marker_in_concat("<|system|>\n"@ + s, lit, rest, "<|user|>"@);
                    assert(first_turn(t, s, user) =~= ("<|system|>\n"@ + s) + lit + rest);
                },
                PromptTemplate::ChatML => {
                    let lit = "<|im_start|>system\n"@;
                    assert(lit.subrange(0, 12) =~= "<|im_start|>"@);
                    lemma_starts_with_marker(lit, "<|im_start|>"@);
                    let rest = s + "<|im_end|>\n<|im_start|>user\n"@ + user + "<|im_end|>\n<|im_start|>assistant\n"@;
                    lemma_marker_in_concat(e, lit, rest, "<|im_start|>"@);
                    assert(first_turn(t, s, user) =~= e + lit + rest);
                },
                PromptTemplate::Llama2 => {
                    let lit = "[INST] <<SYS>>\n"@;
                    assert(lit.subrange(0, 6) =~= "[INST]"@);
                    lemma_starts_with_marker(lit, "[INST]"@);
                    let rest = s + "\n<</SYS>>\n\n"@ + user + " [/INST]"@;
                    lemma_marker_in_concat(e, lit, rest, "[INST]"@);
                    assert(first_turn(t, s, user) =~= e + lit + rest);
                },
                PromptTemplate::Plain => {},
            }
        },
        None => {
            if !has_chat_markers(user) {
                match t {
                    PromptTemplate::UserAssistant => {
                        let lit = "<|user|>\n"@;
                        assert(lit.subrange(0, 8) =~= "<|user|>"@);
                        lemma_starts_with_marker(lit, "<|user|>"@);
                        let rest = user + "<|assistant|>\n"@;
                        lemma_marker_in_concat(e, lit, rest, "<|user|>"@);
                        assert(wrapped_prompt(t, user) =~= e + lit + rest);
                    },
                    PromptTemplate::ChatML => {
                        let lit = "<|im_start|>user\n"@;
                        assert(lit.subrange(0, 12) =~= "<|im_start|>"@);
                        lemma_starts_with_marker(lit, "<|im_start|>"@);
                        let rest = user + "<|im_end|>\n<|im_start|>assistant\n"@;
                        lemma_marker_in_concat(e, lit, rest, "<|im_start|>"@);
                        assert(wrapped_prompt(t, user) =~= e + lit + rest);
                    },
                    PromptTemplate::Llama2 => {
                        let lit = "[INST] "@;
                        assert(lit.subrange(0, 6) =~= "[INST]"@);
                        lemma_starts_with_marker(lit, "[INST]"@);
                        let rest = user + " [/INST]"@;
                        lemma_marker_in_concat(e, lit, rest, "[INST]"@);
                        assert(wrapped_prompt(t, user) =~= e + lit + rest);
                    },
                    PromptTemplate::Plain => {},
                }
            }
        },
    }
}

/// A user message among the first `n` makes `user_seen` true.
proof fn lemma_user_seen_from_witness(ns: Seq<ChatMessage>, n: int, j: int)
    requires
        0 <= j < n,
        has_role(ns[j], "user"@),
    ensures
        user_seen(ns, n),
    decreases n,
{
    if j < n - 1 {
        lemma_user_seen_from_witness(ns, n - 1, j);
    }
}

/// When a user message is among the first `n`, one of them is the first user message.
proof fn lemma_first_user(ns: Seq<ChatMessage>, n: int) -> (f: int)
    requires
        user_seen(ns, n),
    ensures
        0 <= f < n,
        !user_seen(ns, f),
        has_role(ns[f], "user"@),
    decreases n,
{
    if user_seen(ns, n - 1) {
        lemma_first_user(ns, n - 1)
    } else {
        n - 1
    }
}

/// Every prompt prefix past message `f` holds that message's text as a contiguous part.
proof fn lemma_prefix_contains_turn(t: PromptTemplate, system: Option<Seq<char>>, ns: Seq<ChatMessage>, f: int, n: int) -> (parts: (Seq<char>, Seq<char>))
    requires
        0 <= f < n,
    ensures
        prompt_prefix(t, system, ns, n) == parts.0 + turn_text(t, system, ns, f) + parts.1,
    decreases n,
{
    if n == f + 1 {
        let p = (prompt_prefix(t, system, ns, f), Seq::<char>::empty());
        assert(prompt_prefix(t, system, ns, n) =~= p.0 + turn_text(t, system, ns, f) + p.1);
        p
    } else {
        let q = lemma_prefix_contains_turn(t, system, ns, f, n - 1);
        let p = (q.0, q.1 + turn_text(t, system, ns, n - 1));
        assert(prompt_prefix(t, system, ns, n) =~= p.0 + turn_text(t, system, ns, f) + p.1);
        p
    }
}

/// Once a conversation holds a user message, its prompt already carries the template's chat
/// markers, so the engine, which wraps every prompt without markers in its template, leaves it
/// as it is: the conversation is never wrapped twice.
pub proof fn law_prompt_not_wrapped_again(t: PromptTemplate, msgs: Seq<ChatMessage>, j: int)
    requires
        0 <= j < non_system(msgs).len(),
        has_role(non_system(msgs)[j], "user"@),
    ensures
        wrapped_prompt(t, chat_prompt(t, msgs)) == chat_prompt(t, msgs),
{
    if t != PromptTemplate::Plain {
        let ns = non_system(msgs);
        let n = ns.len() as int;
        lemma_user_seen_from_witness(ns, n, j);
        let f = lemma_first_user(ns, n);
        lemma_opening_turn_marked(t, first_system(msgs), ns[f].content@);
        let parts = lemma_prefix_contains_turn(t, first_system(msgs), ns, f, n);
        let turn = turn_text(t, first_system(msgs), ns, f);
        if holds_marker(turn, "<|user|>"@) {
            lemma_marker_in_concat(parts.0, turn, parts.1, "<|user|>"@);
        } else if holds_marker(turn, "<|im_start|>"@) {
            lemma_marker_in_concat(parts.0, turn, parts.1, "<|im_start|>"@);
        } else {
            lemma_marker_in_concat(parts.0, turn, parts.1, "[INST]"@);
        }
    }
}

/// Adding a message at the end extends the non-system messages and keeps the first
/// system message, if there was one.
proof fn lemma_push_message(msgs: Seq<ChatMessage>, m: ChatMessage)
    ensures
        non_system(msgs.push(m)) == non_system(msgs) + if has_role(m, "system"@) { Seq::<ChatMessage>::empty() } else { seq![m] },
        first_system(msgs.push(m)) == match first_system(msgs) {
            Some(c) => Some(c),
            None => if has_role(m, "system"@) { Some(m.content@) } else { None },
        },
{
    assert(msgs.push(m).drop_last() =~= msgs);
    assert(msgs.push(m).last() == m);
}

/// A conversation of one user message becomes that message wrapped in the template.
pub proof fn law_single_user_prompt(t: PromptTemplate, m: ChatMessage)
    requires
        has_role(m, "user"@),
    ensures
        chat_prompt(t, seq![m]) == wrapped_prompt(t, m.content@),
{
    reveal_strlit("user");
    reveal_strlit("system");
    assert(!has_role(m, "system"@)) by {
        assert("user"@[0] != "system"@[0]);
    }
    let e = Seq::<ChatMessage>::empty();
    assert(non_system(e) =~= e);
    assert(first_system(e) is None);
    lemma_push_message(e, m);
    assert(e.push(m) =~= seq![m]);
    assert(non_system(seq![m]) =~= seq![m]);
    assert(!user_seen(seq![m], 0));
    assert(prompt_prefix(t, None, seq![m], 0) =~= Seq::<char>::empty());
    assert(prompt_prefix(t, None, seq![m], 1) =~= turn_text(t, None, seq![m], 0));
}

/// A system message followed by a user message becomes the template's opening turn that
/// carries both.
pub proof fn law_system_then_user_prompt(t: PromptTemplate, s: ChatMessage, u: ChatMessage)
    requires
        has_role(s, "system"@),
        has_role(u, "user"@),
    ensures
        chat_prompt(t, seq![s, u]) == first_turn(t, s.content@, u.content@),
{
    reveal_strlit("user");
    reveal_strlit("system");
    assert(!has_role(u, "system"@)) by {
        assert("user"@[0] != "system"@[0]);
    }
    let e = Seq::<ChatMessage>::empty();
    assert(non_system(e) =~= e);
    assert(first_system(e) is None);
    lemma_push_message(e, s);
    lemma_push_message(e.push(s), u);
    assert(e.push(s).push(u) =~= seq![s, u]);
    assert(non_system(seq![s, u]) =~= seq![u]);
    assert(first_system(seq![s, u]) == Some(s.content@));
    assert(!user_seen(seq![u], 0));
    assert(prompt_prefix(t, Some(s.content@), seq![u], 0) =~= Seq::<char>::empty());
    assert(prompt_prefix(t, Some(s.content@), seq![u], 1) =~= turn_text(t, Some(s.content@), seq![u], 0));
}

/// `a` and `b` hold, message by message, the same role and content texts.
pub open spec fn same_texts(a: Seq<ChatMessage>, b: Seq<ChatMessage>) -> bool {
    &&& a.len() == b.len()
    &&& forall|i: int| 0 <= i < a.len() ==> (#[trigger] a[i]).role@ == b[i].role@ && a[i].content@ == b[i].content@
}

proof fn lemma_same_texts_of_equal_texts(a: Seq<ChatMessage>, b: Seq<ChatMessage>)
    requires
        message_texts(a) == message_texts(b),
    ensures
        same_texts(a, b),
{
    assert(a.len() == message_texts(a).len());
    assert forall|i: int| 0 <= i < a.len() implies (#[trigger] a[i]).role@ == b[i].role@ && a[i].content@ == b[i].content@ by {
        assert(message_texts(a)[i] == message_texts(b)[i]);
    }
}

proof fn lemma_same_texts_split(a: Seq<ChatMessage>, b: Seq<ChatMessage>)
    requires
        same_texts(a, b),
        a.len() > 0,
    ensures
        same_texts(a.drop_last(), b.drop_last()),
        a.last().role@ == b.last().role@,
        a.last().content@ == b.last().content@,
{
    assert(a.last() == a[a.len() - 1]);
    assert(b.last() == b[b.len() - 1]);
    assert forall|i: int| 0 <= i < a.drop_last().len() implies (#[trigger] a.drop_last()[i]).role@ == b.drop_last()[i].role@
        && a.drop_last()[i].content@ == b.drop_last()[i].content@ by {
        assert(a.drop_last()[i] == a[i]);
        assert(b.drop_last()[i] == b[i]);
    }
}

proof fn lemma_same_texts_parts(a: Seq<ChatMessage>, b: Seq<ChatMessage>)
    requires
        same_texts(a, b),
    ensures
        first_system(a) == first_system(b),
        same_texts(non_system(a), non_system(b)),
    decreases a.len(),
{
    if a.len() > 0 {
        lemma_same_texts_split(a, b);
        lemma_same_texts_parts(a.drop_last(), b.drop_last());
        let na = non_system(a.drop_last());
        let nb = non_system(b.drop_last());
        if has_role(a.last(), "system"@) {
            assert(non_system(a) =~= na);
            assert(non_system(b) =~= nb);
        } else {
            let xa = na + seq![a.last()];
            let xb = nb + seq![b.last()];
            assert(non_system(a) == xa);
            assert(non_system(b) == xb);
            assert forall|i: int| 0 <= i < xa.len() implies (#[trigger] xa[i]).role@ == xb[i].role@ && xa[i].content@ == xb[i].content@ by {
                if i < na.len() {
                    assert(xa[i] == na[i]);
                    assert(xb[i] == nb[i]);
                }
            }
        }
    }
}

proof fn lemma_same_texts_user_seen(a: Seq<ChatMessage>, b: Seq<ChatMessage>, n: int)
    requires
        same_texts(a, b),
        n <= a.len(),
    ensures
        user_seen(a, n) == user_seen(b, n),
    decreases n,
{
    if n > 0 {
        lemma_same_texts_user_seen(a, b, n - 1);
        assert(a[n - 1].role@ == b[n - 1].role@);
    }
}

proof fn lemma_same_texts_prefix(t: PromptTemplate, system: Option<Seq<char>>, a: Seq<ChatMessage>, b: Seq<ChatMessage>, n: int)
    requires
        same_texts(a, b),
        n <= a.len(),
    ensures
        prompt_prefix(t, system, a, n) == prompt_prefix(t, system, b, n),
    decreases n,
{
    if n > 0 {
        lemma_same_texts_prefix(t, system, a, b, n - 1);
        let k = n - 1;
        lemma_same_texts_user_seen(a, b, k);
        assert(a[k].role@ == b[k].role@ && a[k].content@ == b[k].content@);
        if k + 1 < a.len() {
            assert(a[k + 1].role@ == b[k + 1].role@);
        }
        assert(turn_text(t, system, a, k) == turn_text(t, system, b, k));
    }
}

/// The prompt of a conversation depends on nothing but the role and content text of each
/// message: two conversations that agree on those texts, message by message, get the same
/// prompt from the same template.
pub proof fn law_prompt_depends_only_on_texts(t: PromptTemplate, a: Seq<ChatMessage>, b: Seq<ChatMessage>)
    requires
        message_texts(a) == message_texts(b),
    ensures
        chat_prompt(t, a) == chat_prompt(t, b),
{
    lemma_same_texts_of_equal_texts(a, b);
    lemma_same_texts_parts(a, b);
    let na = non_system(a);
    let nb = non_system(b);
    lemma_same_texts_prefix(t, first_system(a), na, nb, na.len() as int);
}

proof fn lemma_user_seen_push(ns: Seq<ChatMessage>, m: ChatMessage, n: int)
    requires
        n <= ns.len(),
    ensures
        user_seen(ns.push(m), n) == user_seen(ns, n),
    decreases n,
{
    if n > 0 {
        lemma_user_seen_push(ns, m, n - 1);
        assert(ns.push(m)[n - 1] == ns[n - 1]);
    }
}

/// Appending a message after a user message leaves the prompt of the earlier messages as it was.
proof fn lemma_prefix_push_after_user(t: PromptTemplate, system: Option<Seq<char>>, ns: Seq<ChatMessage>, m: ChatMessage, j: int)
    requires
        ns.len() > 0,
        has_role(ns.last(), "user"@),
        j <= ns.len(),
    ensures
        prompt_prefix(t, system, ns.push(m), j) == prompt_prefix(t, system, ns, j),
    decreases j,
{
    if j > 0 {
        lemma_prefix_push_after_user(t, system, ns, m, j - 1);
        let k = j - 1;
        let ns2 = ns.push(m);
        lemma_user_seen_push(ns, m, k);
        assert(ns2[k] == ns[k]);
        if k + 1 < ns.len() {
            assert(ns2[k + 1] == ns[k + 1]);
        } else {
            assert(ns[k] == ns.last());
        }
        assert(turn_text(t, system, ns2, k) == turn_text(t, system, ns, k));
    }
}

/// Once the conversation's last turn came from the user, another user message adds exactly
/// the template's continuation turn for its content: the system message and the opening turn
/// are not repeated, and nothing before changes.
pub proof fn law_later_user_turn_is_continuation(t: PromptTemplate, msgs: Seq<ChatMessage>, u: ChatMessage)
    requires
        has_role(u, "user"@),
        non_system(msgs).len() > 0,
        has_role(non_system(msgs).last(), "user"@),
    ensures
        chat_prompt(t, msgs.push(u)) == chat_prompt(t, msgs) + continuation_turn(t, u.content@),
{
    reveal_strlit("user");
    reveal_strlit("system");
    assert(!has_role(u, "system"@)) by {
        assert("user"@[0] != "system"@[0]);
    }
    lemma_push_message(msgs, u);
    let ns = non_system(msgs);
    let ns2 = non_system(msgs.push(u));
    assert(ns2 =~= ns.push(u));
    let sys = first_system(msgs);
    assert(first_system(msgs.push(u)) == sys);
    let n = ns.len() as int;
    lemma_prefix_push_after_user(t, sys, ns, u, n);
    assert(ns2[n - 1] == ns.last());
    assert(user_seen(ns2, n));
    assert(ns2[n] == u);
    assert(prompt_prefix(t, sys, ns2, n + 1) == prompt_prefix(t, sys, ns2, n) + turn_text(t, sys, ns2, n));
}

/// A system message, a user message, the assistant's reply and a second user message become
/// the opening turn (carrying the system text, once), the reply as it is, and a continuation
/// turn for the second user message.
pub proof fn law_conversation_with_reply_prompt(t: PromptTemplate, s: ChatMessage, u1: ChatMessage, a: ChatMessage, u2: ChatMessage)
    requires
        has_role(s, "system"@),
        has_role(u1, "user"@),
        has_role(a, "assistant"@),
        has_role(u2, "user"@),
    ensures
        chat_prompt(t, seq![s, u1, a, u2])
            == first_turn(t, s.content@, u1.content@) + a.content@ + continuation_turn(t, u2.content@),
{
    reveal_strlit("user");
    reveal_strlit("system");
    reveal_strlit("assistant");
    assert(!has_role(u1, "system"@) && !has_role(u2, "system"@)) by {
        assert("user"@[0] != "system"@[0]);
    }
    assert(!has_role(a, "system"@) && !has_role(a, "user"@)) by {
        assert("assistant"@[0] != "system"@[0]);
        assert("assistant"@[0] != "user"@[0]);
    }
    let e = Seq::<ChatMessage>::empty();
    assert(non_system(e) =~= e);
    assert(first_system(e) is None);
    lemma_push_message(e, s);
    lemma_push_message(e.push(s), u1);
    lemma_push_message(e.push(s).push(u1), a);
    lemma_push_message(e.push(s).push(u1).push(a), u2);
    assert(e.push(s).push(u1).push(a).push(u2) =~= seq![s, u1, a, u2]);
    let ns = seq![u1, a, u2];
    assert(non_system(e.push(s)) =~= e);
    assert(non_system(e.push(s).push(u1)) =~= seq![u1]);
    assert(non_system(e.push(s).push(u1).push(a)) =~= seq![u1, a]);
    assert(non_system(seq![s, u1, a, u2]) =~= ns);
    let sys = Some(s.content@);
    assert(first_system(seq![s, u1, a, u2]) == sys);
    assert(!user_seen(ns, 0));
    assert(user_seen(ns, 2)) by {
        assert(user_seen(ns, 1));
    }
    assert(prompt_prefix(t, sys, ns, 0) =~= Seq::<char>::empty());
    assert(turn_text(t, sys, ns, 0) == first_turn(t, s.content@, u1.content@));
    assert(turn_text(t, sys, ns, 1) == a.content@);
    assert(turn_text(t, sys, ns, 2) == continuation_turn(t, u2.content@));
    assert(prompt_prefix(t, sys, ns, 1) =~= first_turn(t, s.content@, u1.content@));
    assert(prompt_prefix(t, sys, ns, 2) =~= first_turn(t, s.content@, u1.content@) + a.content@);
    assert(prompt_prefix(t, sys, ns, 3) =~= first_turn(t, s.content@, u1.content@) + a.content@ + continuation_turn(t, u2.content@));
}

/// A user message answered by the assistant, with no system message, becomes the user's
/// wrapped turn followed by the reply and a line break, leaving the model to go on.
pub proof fn law_reply_ends_with_line_break(t: PromptTemplate, u: ChatMessage, a: ChatMessage)
    requires
        has_role(u, "user"@),
        has_role(a, "assistant"@),
    ensures
        chat_prompt(t, seq![u, a]) == wrapped_prompt(t, u.content@) + a.content@ + "\n"@,
{
    reveal_strlit("user");
    reveal_strlit("system");
    reveal_strlit("assistant");
    assert(!has_role(u, "system"@)) by {
        assert("user"@[0] != "system"@[0]);
    }
    assert(!has_role(a, "system"@) && !has_role(a, "user"@)) by {
        assert("assistant"@[0] != "system"@[0]);
        assert("assistant"@[0] != "user"@[0]);
    }
    let e = Seq::<ChatMessage>::empty();
    assert(non_system(e) =~= e);
    assert(first_system(e) is None);
    lemma_push_message(e, u);
    lemma_push_message(e.push(u), a);
    assert(e.push(u).push(a) =~= seq![u, a]);
    assert(non_system(e.push(u)) =~= seq![u]);
    let ns = seq![u, a];
    assert(non_system(seq![u, a]) =~= ns);
    assert(first_system(seq![u, a]) is None);
    assert(!user_seen(ns, 0));
    assert(prompt_prefix(t, None, ns, 0) =~= Seq::<char>::empty());
    assert(turn_text(t, None, ns, 0) == wrapped_prompt(t, u.content@));
    assert(turn_text(t, None, ns, 1) == a.content@ + "\n"@);
    assert(prompt_prefix(t, None, ns, 1) =~= wrapped_prompt(t, u.content@));
    assert(prompt_prefix(t, None, ns, 2) =~= wrapped_prompt(t, u.content@) + a.content@ + "\n"@);
}

} // verus!
