//! The context manager: the system prompt, the static prompts and the
//! context of the providers, put together for the model.

use vstd::prelude::*;
use crate::context::providers::ContextProvider;
use crate::llm::types::{lemma_deep_view_push, Message, MessageContentView, MessageView, Role};
use crate::text::{join, joined};

verus! {

/// What one provider gave.
#[derive(Debug)]
pub struct ProvidedContext {
    /// The provider's name.
    pub name: String,
    /// The context; `None` where the provider has nothing to add.
    pub context: Option<String>,
    /// Whether the context goes into the conversation as a message.
    pub as_message: bool,
}

/// The model of a [`ProvidedContext`].
pub ghost struct ProvidedContextView {
    pub name: Seq<char>,
    pub context: Option<Seq<char>>,
    pub as_message: bool,
}

impl DeepView for ProvidedContext {
    type V = ProvidedContextView;

    open spec fn deep_view(&self) -> ProvidedContextView {
        ProvidedContextView {
            name: self.name@,
            context: self.context.deep_view(),
            as_message: self.as_message,
        }
    }
}

/// The section of the system prompt for one context.
pub open spec fn context_section(name: Seq<char>, context: Seq<char>) -> Seq<char> {
    "\n<context name=\""@ + name + "\">\n"@ + context + "\n</context>"@
}

/// The section of a hidden message for one context.
pub open spec fn hidden_section(name: Seq<char>, context: Seq<char>) -> Seq<char> {
    "<hidden-context name=\""@ + name + "\">\n"@ + context + "\n</hidden-context>"@
}

/// The sections of the system prompt for the contexts given, in order; a
/// provider that gave nothing has none.
pub open spec fn context_sections(contexts: Seq<ProvidedContextView>) -> Seq<Seq<char>>
    decreases contexts.len(),
{
    if contexts.len() == 0 {
        Seq::empty()
    } else {
        let rest = context_sections(contexts.drop_last());
        match contexts.last().context {
            Some(context) => rest.push(context_section(contexts.last().name, context)),
            None => rest,
        }
    }
}

/// The sections of a hidden message: those of the providers that inject
/// their context as a message and gave one.
pub open spec fn hidden_sections(contexts: Seq<ProvidedContextView>) -> Seq<Seq<char>>
    decreases contexts.len(),
{
    if contexts.len() == 0 {
        Seq::empty()
    } else {
        let rest = hidden_sections(contexts.drop_last());
        match contexts.last().context {
            Some(context) => if contexts.last().as_message {
                rest.push(hidden_section(contexts.last().name, context))
            } else {
                rest
            },
            None => rest,
        }
    }
}

/// The full system prompt: the base prompt, the static prompts and the
/// sections of the contexts, with an empty line between neighbours.
pub open spec fn full_system_prompt(
    system_prompt: Seq<char>,
    static_prompts: Seq<Seq<char>>,
    contexts: Seq<ProvidedContextView>,
) -> Seq<char> {
    joined(seq![system_prompt] + static_prompts + context_sections(contexts), "\n\n"@)
}

/// The hidden message for the contexts: none where no section is there, else
/// a user message with the sections, an empty line between neighbours.
pub open spec fn hidden_message(contexts: Seq<ProvidedContextView>) -> Option<MessageView> {
    let sections = hidden_sections(contexts);
    if sections.len() == 0 {
        None
    } else {
        Some(
            MessageView {
                role: Role::User,
                content: MessageContentView::Text(joined(sections, "\n\n"@)),
            },
        )
    }
}

/// Puts the full system prompt together from its parts.
pub fn compose_system_prompt(
    system_prompt: &str,
    static_prompts: &Vec<String>,
    contexts: &Vec<ProvidedContext>,
) -> (r: String)
    ensures
        r@ == full_system_prompt(system_prompt@, static_prompts.deep_view(), contexts.deep_view()),
{
    let mut parts: Vec<String> = Vec::new();
    parts.push(system_prompt.to_string());
    proof {
        assert(parts.deep_view() =~= seq![system_prompt@] + static_prompts.deep_view().take(0));
    }
    let mut i: usize = 0;
    while i < static_prompts.len()
        invariant
            0 <= i <= static_prompts.len(),
            parts.deep_view() == seq![system_prompt@] + static_prompts.deep_view().take(i as int),
        decreases static_prompts.len() - i,
    {
        let ghost before = parts;
        parts.push(static_prompts[i].clone());
        proof {
            lemma_deep_view_push(before, parts, parts[parts.len() - 1]);
            assert(parts.deep_view() =~= seq![system_prompt@] + static_prompts.deep_view().take(
                i + 1,
            ));
        }
        i += 1;
    }
    let ghost head = parts.deep_view();
    proof {
        assert(static_prompts.deep_view().take(static_prompts.len() as int)
            =~= static_prompts.deep_view());
        assert(head + context_sections(contexts.deep_view().take(0)) =~= head);
    }
    let mut k: usize = 0;
    while k < contexts.len()
        invariant
            0 <= k <= contexts.len(),
            parts.deep_view() == head + context_sections(contexts.deep_view().take(k as int)),
        decreases contexts.len() - k,
    {
        proof {
            let next = contexts.deep_view().take(k + 1);
            assert(next.drop_last() =~= contexts.deep_view().take(k as int));
            assert(next.last() == contexts[k as int].deep_view());
        }
        match &contexts[k].context {
            Some(context) => {
                let mut section = "\n<context name=\"".to_string();
                section = crate::text::concat3(section.as_str(), contexts[k].name.as_str(), "\">\n");
                section = crate::text::concat3(section.as_str(), context.as_str(), "\n</context>");
                let ghost before = parts;
                parts.push(section);
                proof {
                    lemma_deep_view_push(before, parts, parts[parts.len() - 1]);
                    assert(parts.deep_view() =~= head + context_sections(
                        contexts.deep_view().take(k + 1),
                    ));
                }
            },
            None => {},
        }
        k += 1;
    }
    proof {
        assert(contexts.deep_view().take(contexts.len() as int) =~= contexts.deep_view());
    }
    join(&parts, "\n\n")
}

/// Puts the hidden message together from the contexts.
pub fn compose_hidden_message(contexts: &Vec<ProvidedContext>) -> (r: Option<Message>)
    ensures
        r.deep_view() == hidden_message(contexts.deep_view()),
{
    let mut parts: Vec<String> = Vec::new();
    proof {
        assert(parts.deep_view() =~= hidden_sections(contexts.deep_view().take(0)));
    }
    let mut k: usize = 0;
    while k < contexts.len()
        invariant
            0 <= k <= contexts.len(),
            parts.deep_view() == hidden_sections(contexts.deep_view().take(k as int)),
        decreases contexts.len() - k,
    {
        proof {
            let next = contexts.deep_view().take(k + 1);
            assert(next.drop_last() =~= contexts.deep_view().take(k as int));
            assert(next.last() == contexts[k as int].deep_view());
        }
        match &contexts[k].context {
            Some(context) => {
                if contexts[k].as_message {
                    let mut section = "<hidden-context name=\"".to_string();
                    section =
                    crate::text::concat3(section.as_str(), contexts[k].name.as_str(), "\">\n");
                    section =
                    crate::text::concat3(section.as_str(), context.as_str(), "\n</hidden-context>");
                    let ghost before = parts;
                    parts.push(section);
                    proof {
                        lemma_deep_view_push(before, parts, parts[parts.len() - 1]);
                    }
                }
            },
            None => {},
        }
        k += 1;
    }
    proof {
        assert(contexts.deep_view().take(contexts.len() as int) =~= contexts.deep_view());
    }
    if parts.len() == 0 {
        None
    } else {
        let text = join(&parts, "\n\n");
        Some(Message::user(text.as_str()))
    }
}

/// One provider of a context manager.
pub struct HeldProvider {
    provider: Box<dyn ContextProvider>,
}

/// Puts a provider behind the others.
fn push_provider(providers: &mut Vec<HeldProvider>, held: HeldProvider)
    ensures
        final(providers)@.len() == old(providers)@.len() + 1,
{
    providers.push(held);
}

/// Whether every context is one that goes into the conversation as a
/// message.
pub open spec fn all_as_message(contexts: Seq<ProvidedContextView>) -> bool {
    forall|i: int| 0 <= i < contexts.len() ==> (#[trigger] contexts[i]).as_message
}

/// Manages context injection for the agent.
pub struct ContextManager {
    /// The base system prompt.
    system_prompt: String,
    /// Context providers for dynamic context.
    providers: Vec<HeldProvider>,
    /// Static hidden prompts, always included.
    static_prompts: Vec<String>,
}

impl ContextManager {
    /// The base system prompt.
    pub closed spec fn prompt(self) -> Seq<char> {
        self.system_prompt@
    }

    /// The static prompts, in the order in which they were added.
    pub closed spec fn statics(self) -> Seq<Seq<char>> {
        self.static_prompts.deep_view()
    }

    /// The number of providers.
    pub closed spec fn provider_count(self) -> nat {
        self.providers@.len()
    }

    /// A context manager with a system prompt, and nothing else.
    pub fn new(system_prompt: &str) -> (r: ContextManager)
        ensures
            r.prompt() == system_prompt@,
            r.statics() == Seq::<Seq<char>>::empty(),
            r.provider_count() == 0,
    {
        let r = ContextManager {
            system_prompt: system_prompt.to_string(),
            providers: Vec::new(),
            static_prompts: Vec::new(),
        };
        proof {
            assert(r.static_prompts.deep_view() =~= Seq::empty());
        }
        r
    }

    /// Adds a context provider behind the others.
    pub fn add_provider<P: ContextProvider + 'static>(&mut self, provider: P)
        ensures
            final(self).prompt() == old(self).prompt(),
            final(self).statics() == old(self).statics(),
            final(self).provider_count() == old(self).provider_count() + 1,
    {
        let boxed: Box<dyn ContextProvider> = Box::new(provider);
        push_provider(&mut self.providers, HeldProvider { provider: boxed });
    }

    /// Adds a static hidden prompt behind the others.
    pub fn add_static_prompt(&mut self, prompt: &str)
        ensures
            final(self).prompt() == old(self).prompt(),
            final(self).statics() == old(self).statics().push(prompt@),
            final(self).provider_count() == old(self).provider_count(),
    {
        let ghost before = self.static_prompts;
        self.static_prompts.push(prompt.to_string());
        proof {
            lemma_deep_view_push(
                before,
                self.static_prompts,
                self.static_prompts[self.static_prompts.len() - 1],
            );
        }
    }

    /// The base system prompt.
    pub fn system_prompt(&self) -> (r: &str)
        ensures
            r@ == self.prompt(),
    {
        self.system_prompt.as_str()
    }

    /// Sets the system prompt.
    pub fn set_system_prompt(&mut self, prompt: &str)
        ensures
            final(self).prompt() == prompt@,
            final(self).statics() == old(self).statics(),
            final(self).provider_count() == old(self).provider_count(),
    {
        self.system_prompt = prompt.to_string();
    }

    /// Asks every provider for its context, in the order in which they were
    /// added. The first provider that fails ends the round with its message.
    pub fn gather_contexts(&self, messages: &Vec<Message>) -> (r: Result<Vec<ProvidedContext>, String>)
        ensures
            r matches Ok(contexts) ==> contexts.len() == self.provider_count(),
            self.provider_count() == 0 ==> r is Ok,
    {
        let mut contexts: Vec<ProvidedContext> = Vec::new();
        let mut i: usize = 0;
        while i < self.providers.len()
            invariant
                0 <= i <= self.providers.len(),
                contexts.len() == i,
            decreases self.providers.len() - i,
        {
            let provider = &self.providers[i].provider;
            let context = match provider.get_context(messages) {
                Ok(context) => context,
                Err(message) => {
                    return Err(message);
                },
            };
            contexts.push(
                ProvidedContext {
                    name: provider.name(),
                    context,
                    as_message: provider.inject_as_message(),
                },
            );
            i += 1;
        }
        Ok(contexts)
    }

    /// Asks the providers that inject their context as a message for it, in
    /// the order in which they were added, and no others. The first of them
    /// that fails ends the round with its message.
    pub fn gather_message_contexts(&self, messages: &Vec<Message>) -> (r: Result<
        Vec<ProvidedContext>,
        String,
    >)
        ensures
            r matches Ok(contexts) ==> contexts.len() <= self.provider_count() && all_as_message(
                contexts.deep_view(),
            ),
            self.provider_count() == 0 ==> r is Ok,
    {
        let mut contexts: Vec<ProvidedContext> = Vec::new();
        let mut i: usize = 0;
        while i < self.providers.len()
            invariant
                0 <= i <= self.providers.len(),
                contexts.len() <= i,
                all_as_message(contexts.deep_view()),
            decreases self.providers.len() - i,
        {
            let provider = &self.providers[i].provider;
            if provider.inject_as_message() {
                let context = match provider.get_context(messages) {
                    Ok(context) => context,
                    Err(message) => {
                        return Err(message);
                    },
                };
                let ghost before = contexts;
                contexts.push(ProvidedContext { name: provider.name(), context, as_message: true });
                proof {
                    lemma_deep_view_push(before, contexts, contexts[contexts.len() - 1]);
                    assert forall|k: int| 0 <= k < contexts.deep_view().len() implies (
                    #[trigger] contexts.deep_view()[k]).as_message by {
                        if k < before.deep_view().len() {
                            assert(contexts.deep_view()[k] == before.deep_view()[k]);
                        }
                    }
                }
            }
            i += 1;
        }
        Ok(contexts)
    }

    /// The full system prompt for what the providers gave.
    pub fn full_prompt_with(&self, contexts: &Vec<ProvidedContext>) -> (r: String)
        ensures
            r@ == full_system_prompt(self.prompt(), self.statics(), contexts.deep_view()),
    {
        compose_system_prompt(self.system_prompt.as_str(), &self.static_prompts, contexts)
    }

    /// Builds the full system prompt: the base prompt, the static prompts
    /// and the context of every provider. Without providers this cannot fail.
    /// With providers the prompt is put together from what they gave, one
    /// context for each, whatever that is.
    pub fn build_full_system_prompt(&self, messages: &Vec<Message>) -> (r: Result<String, String>)
        ensures
            self.provider_count() == 0 ==> r is Ok && r->Ok_0@ == full_system_prompt(
                self.prompt(),
                self.statics(),
                Seq::empty(),
            ),
            r matches Ok(prompt) ==> exists|contexts: Seq<ProvidedContextView>|
                contexts.len() == self.provider_count() && prompt@ == #[trigger] full_system_prompt(
                    self.prompt(),
                    self.statics(),
                    contexts,
                ),
    {
        match self.gather_contexts(messages) {
            Ok(contexts) => {
                proof {
                    if self.provider_count() == 0 {
                        assert(contexts.deep_view() =~= Seq::empty());
                    }
                }
                let prompt = self.full_prompt_with(&contexts);
                proof {
                    assert(contexts.deep_view().len() == self.provider_count());
                    assert(prompt@ == full_system_prompt(
                        self.prompt(),
                        self.statics(),
                        contexts.deep_view(),
                    ));
                }
                Ok(prompt)
            },
            Err(message) => Err(message),
        }
    }

    /// Builds the hidden user message with the context of the providers that
    /// inject theirs as a message; no other provider is asked. Without
    /// providers there is none. With providers the message is put together
    /// from what those providers gave, whatever that is.
    pub fn create_hidden_context_message(&self, messages: &Vec<Message>) -> (r: Result<
        Option<Message>,
        String,
    >)
        ensures
            self.provider_count() == 0 ==> r matches Ok(None),
            r matches Ok(message) ==> exists|contexts: Seq<ProvidedContextView>|
                contexts.len() <= self.provider_count() && all_as_message(contexts)
                    && message.deep_view() == #[trigger] hidden_message(contexts),
    {
        match self.gather_message_contexts(messages) {
            Ok(contexts) => {
                proof {
                    if self.provider_count() == 0 {
                        assert(contexts.deep_view() =~= Seq::empty());
                    }
                }
                let message = compose_hidden_message(&contexts);
                proof {
                    assert(contexts.deep_view().len() <= self.provider_count());
                    assert(message.deep_view() == hidden_message(contexts.deep_view()));
                }
                Ok(message)
            },
            Err(message) => Err(message),
        }
    }

    /// Removes all providers and static prompts.
    pub fn clear(&mut self)
        ensures
            final(self).prompt() == old(self).prompt(),
            final(self).statics() == Seq::<Seq<char>>::empty(),
            final(self).provider_count() == 0,
    {
        self.providers = Vec::new();
        self.static_prompts = Vec::new();
        proof {
            assert(self.static_prompts.deep_view() =~= Seq::empty());
        }
    }
}

impl Default for ContextManager {
    fn default() -> (r: ContextManager)
        ensures
            r.prompt() == ""@,
            r.statics() == Seq::<Seq<char>>::empty(),
            r.provider_count() == 0,
    {
        ContextManager::new("")
    }
}

} // verus!
