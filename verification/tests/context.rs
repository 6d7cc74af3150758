use picrust::context::manager::{compose_hidden_message, compose_system_prompt, ProvidedContext};
use picrust::context::providers::GitOutputs;
use picrust::context::{
    ContextManager, ContextProvider, FileStructureProvider, GitStatusProvider, StaticContextProvider,
};
use picrust::llm::Message;

struct Failing;

impl ContextProvider for Failing {
    fn name(&self) -> String {
        "failing".to_string()
    }

    fn get_context(&self, _messages: &Vec<Message>) -> Result<Option<String>, String> {
        Err("no context today".to_string())
    }
}

struct FailingMessage;

impl ContextProvider for FailingMessage {
    fn name(&self) -> String {
        "failing_message".to_string()
    }

    fn get_context(&self, _messages: &Vec<Message>) -> Result<Option<String>, String> {
        Err("no message today".to_string())
    }

    fn inject_as_message(&self) -> bool {
        true
    }
}

struct Silent;

impl ContextProvider for Silent {
    fn name(&self) -> String {
        "silent".to_string()
    }

    fn get_context(&self, _messages: &Vec<Message>) -> Result<Option<String>, String> {
        Ok(None)
    }

    fn inject_as_message(&self) -> bool {
        true
    }
}

#[test]
fn context_goes_into_the_system_prompt_by_default() {
    assert!(!Failing.inject_as_message());
    assert!(Silent.inject_as_message());
}

#[test]
fn test_basic_system_prompt() {
    let manager = ContextManager::new("You are a helpful assistant.");
    let prompt = manager.build_full_system_prompt(&Vec::new()).unwrap();
    assert!(prompt.contains("You are a helpful assistant."));
    assert_eq!(prompt, "You are a helpful assistant.");
}

#[test]
fn test_static_prompts() {
    let mut manager = ContextManager::new("Base prompt");
    manager.add_static_prompt("Additional context");

    let prompt = manager.build_full_system_prompt(&Vec::new()).unwrap();
    assert!(prompt.contains("Base prompt"));
    assert!(prompt.contains("Additional context"));
    assert_eq!(prompt, "Base prompt\n\nAdditional context");
}

#[test]
fn test_static_provider() {
    let provider = StaticContextProvider::new("test", "Test context");
    let context = provider.get_context(&Vec::new()).unwrap();
    assert_eq!(context, Some("Test context".to_string()));
    assert_eq!(ContextProvider::name(&provider), "test");
    assert!(!ContextProvider::inject_as_message(&provider));
}

#[test]
fn provider_context_goes_into_the_prompt_in_order() {
    let mut manager = ContextManager::new("Base");
    manager.add_static_prompt("Static");
    manager.add_provider(StaticContextProvider::new("rules", "Be kind."));
    manager.add_provider(Silent);
    manager.add_provider(StaticContextProvider::new("style", "Short.").inject_as_message(true));
    let prompt = manager.build_full_system_prompt(&vec![Message::user("hi")]).unwrap();
    assert_eq!(
        prompt,
        "Base\n\nStatic\n\n\n<context name=\"rules\">\nBe kind.\n</context>\n\n\n<context name=\"style\">\nShort.\n</context>"
    );
    let hidden = manager.create_hidden_context_message(&Vec::new()).unwrap().unwrap();
    assert_eq!(hidden.text(), "<hidden-context name=\"style\">\nShort.\n</hidden-context>");
    assert_eq!(hidden.role, picrust::llm::Role::User);
}

#[test]
fn a_failing_provider_fails_the_prompt() {
    let mut manager = ContextManager::new("Base");
    manager.add_provider(StaticContextProvider::new("a", "A"));
    manager.add_provider(Failing);
    assert_eq!(manager.build_full_system_prompt(&Vec::new()), Err("no context today".to_string()));
    // The failing provider injects nothing as a message, so it is not asked
    // for the hidden message.
    assert!(manager.create_hidden_context_message(&Vec::new()).unwrap().is_none());
    manager.add_provider(StaticContextProvider::new("m", "M").inject_as_message(true));
    assert_eq!(
        manager.create_hidden_context_message(&Vec::new()).unwrap().unwrap().text(),
        "<hidden-context name=\"m\">\nM\n</hidden-context>"
    );
    manager.add_provider(FailingMessage);
    assert_eq!(
        manager.create_hidden_context_message(&Vec::new()).unwrap_err(),
        "no message today"
    );
    manager.clear();
    assert_eq!(manager.build_full_system_prompt(&Vec::new()), Ok("Base".to_string()));
    assert!(manager.create_hidden_context_message(&Vec::new()).unwrap().is_none());
}

#[test]
fn the_system_prompt_can_be_read_and_set() {
    let mut manager = ContextManager::default();
    assert_eq!(manager.system_prompt(), "");
    manager.set_system_prompt("New");
    assert_eq!(manager.system_prompt(), "New");
    manager.add_static_prompt("S");
    manager.clear();
    assert_eq!(manager.build_full_system_prompt(&Vec::new()).unwrap(), "New");
}

#[test]
fn prompts_compose_from_their_parts() {
    let contexts = vec![
        ProvidedContext { name: "a".to_string(), context: Some("A".to_string()), as_message: false },
        ProvidedContext { name: "b".to_string(), context: None, as_message: true },
        ProvidedContext { name: "c".to_string(), context: Some("C".to_string()), as_message: true },
        ProvidedContext { name: "d".to_string(), context: Some("D".to_string()), as_message: true },
    ];
    assert_eq!(
        compose_system_prompt("P", &Vec::new(), &contexts),
        "P\n\n\n<context name=\"a\">\nA\n</context>\n\n\n<context name=\"c\">\nC\n</context>\n\n\n<context name=\"d\">\nD\n</context>"
    );
    assert_eq!(
        compose_hidden_message(&contexts).unwrap().text(),
        "<hidden-context name=\"c\">\nC\n</hidden-context>\n\n<hidden-context name=\"d\">\nD\n</hidden-context>"
    );
    assert!(compose_hidden_message(&contexts[..2].iter().map(|c| ProvidedContext {
        name: c.name.clone(),
        context: c.context.clone(),
        as_message: c.as_message
    }).collect()).is_none());
}

#[test]
fn file_structure_settings() {
    let provider = FileStructureProvider::new("/repo");
    assert_eq!(provider.base_dir, "/repo");
    assert_eq!(provider.max_depth, 3);
    assert_eq!(provider.exclude_patterns, vec![".git", "node_modules", "target", "__pycache__", ".venv"]);
    assert_eq!(provider.name(), "file_structure");
    let provider = provider.with_max_depth(2).with_exclude_patterns(vec!["dist".to_string(), ".git".to_string()]);
    assert_eq!(provider.tree_arguments(), vec!["-L", "2", "--noreport", "-I", "dist", "-I", ".git"]);
    assert_eq!(provider.find_arguments(), vec![".", "-maxdepth", "2", "-type", "f"]);
    assert_eq!(provider.context_for(""), None);
    assert_eq!(
        provider.context_for(".\n└── src\n"),
        Some("Project structure:\n```\n.\n└── src\n\n```".to_string())
    );
}

#[test]
fn git_status_report() {
    let provider = GitStatusProvider::new("/repo");
    assert_eq!(provider.base_dir, "/repo");
    assert!(!provider.include_diff);
    assert_eq!(provider.recent_commits, 5);
    assert_eq!(provider.name(), "git_status");
    assert_eq!(provider.log_limit_argument(), "-5");

    let outside = GitOutputs { status: None, branch: None, log: None, diff: None };
    assert_eq!(provider.get_git_status(&outside), "Not a git repository");

    let clean = GitOutputs {
        status: Some(String::new()),
        branch: Some("main".to_string()),
        log: Some("abc123 First\n".to_string()),
        diff: Some(" a.rs | 2 +-\n".to_string()),
    };
    assert_eq!(
        provider.get_git_status(&clean),
        "Git status:\nWorking tree clean\n\nCurrent branch: main\n\nRecent commits:\nabc123 First\n"
    );
    let with_diff = GitStatusProvider::new("/repo").with_diff().with_recent_commits(0);
    assert_eq!(with_diff.log_limit_argument(), "-0");
    let dirty = GitOutputs {
        status: Some(" M a.rs\n".to_string()),
        branch: None,
        log: Some("abc123 First\n".to_string()),
        diff: Some(" a.rs | 2 +-\n".to_string()),
    };
    assert_eq!(
        with_diff.get_git_status(&dirty),
        "Git status:\n M a.rs\n\n\nUnstaged changes:\n a.rs | 2 +-\n"
    );
    let empty_diff = GitOutputs { status: Some("x\n".to_string()), branch: None, log: None, diff: Some(String::new()) };
    assert_eq!(with_diff.get_git_status(&empty_diff), "Git status:\nx\n");
}
