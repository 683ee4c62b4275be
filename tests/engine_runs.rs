use file_organizer::engine::{Action, Engine, Entry, Event};
use file_organizer::outcome::{ListError, Outcome, RelocationError, RelocationPolicy, RuleError};
use file_organizer::rules::{Config, Rule};

/// An in-memory tree of folders, each holding (name, is_regular_file) entries.
struct Folders {
    folders: Vec<(String, Vec<(String, bool)>)>,
    failing: Vec<String>,
    unlistable: Vec<String>,
    uncreatable: Vec<String>,
}

impl Folders {
    fn new() -> Folders {
        Folders { folders: Vec::new(), failing: Vec::new(), unlistable: Vec::new(), uncreatable: Vec::new() }
    }

    fn with(mut self, folder: &str, entries: &[(&str, bool)]) -> Folders {
        let list = entries.iter().map(|(n, f)| (n.to_string(), *f)).collect();
        self.folders.push((folder.to_string(), list));
        self
    }

    fn find(&self, folder: &str) -> Option<usize> {
        self.folders.iter().position(|(f, _)| f == folder)
    }

    fn names(&self, folder: &str) -> Vec<String> {
        match self.find(folder) {
            Some(i) => self.folders[i].1.iter().map(|(n, _)| n.clone()).collect(),
            None => Vec::new(),
        }
    }

    fn perform(&mut self, action: &Action) -> Option<Event> {
        match action {
            Action::CheckSource { folder } => Some(Event::SourceChecked { exists: self.find(folder).is_some() }),
            Action::PrepareDestination { folder } => {
                if self.uncreatable.contains(folder) {
                    return Some(Event::DestinationPrepared { result: Err("denied".to_string()) });
                }
                if self.find(folder).is_none() {
                    self.folders.push((folder.clone(), Vec::new()));
                }
                Some(Event::DestinationPrepared { result: Ok(()) })
            }
            Action::ListFolder { folder } => {
                if self.unlistable.contains(folder) {
                    let e = ListError::ReadDir { folder: folder.clone(), message: "denied".to_string() };
                    return Some(Event::Listed { result: Err(e) });
                }
                let i = self.find(folder).unwrap();
                let entries = self.folders[i]
                    .1
                    .iter()
                    .map(|(n, f)| Entry { name: n.clone(), is_file: *f })
                    .collect();
                Some(Event::Listed { result: Ok(entries) })
            }
            Action::Relocate { file_name, source_folder, destination_folder, .. } => {
                if self.failing.contains(file_name) {
                    let e = RelocationError::Copy { message: "permission denied".to_string() };
                    return Some(Event::Relocated { result: Err(e) });
                }
                let s = self.find(source_folder).unwrap();
                let pos = self.folders[s].1.iter().position(|(n, _)| n == file_name).unwrap();
                let entry = self.folders[s].1.remove(pos);
                let d = self.find(destination_folder).unwrap();
                self.folders[d].1.retain(|(n, _)| n != file_name);
                self.folders[d].1.push(entry);
                Some(Event::Relocated { result: Ok(()) })
            }
            Action::Finished | Action::Aborted => None,
        }
    }
}

fn rule(name: &str, source: &str, pattern: &str, dest: &str) -> Rule {
    Rule::new(name.to_string(), source.to_string(), pattern.to_string(), dest.to_string())
}

fn run(fs: &mut Folders, rules: Vec<Rule>) -> Engine {
    let mut engine = Engine::new(Config::new(rules), RelocationPolicy::CopyThenDelete);
    let mut action = engine.action();
    while let Some(event) = fs.perform(&action) {
        action = engine.step(event);
    }
    engine
}

fn summaries(engine: &Engine) -> Vec<(String, usize)> {
    engine
        .outcomes()
        .iter()
        .filter_map(|o| match o {
            Outcome::RuleSummary { rule, moved } => Some((rule.clone(), *moved)),
            _ => None,
        })
        .collect()
}

fn moved_files(engine: &Engine) -> Vec<(String, bool)> {
    engine
        .outcomes()
        .iter()
        .filter_map(|o| match o {
            Outcome::FileAction { file_name, result, .. } => Some((file_name.clone(), result.is_ok())),
            _ => None,
        })
        .collect()
}

#[test]
fn missing_source_warns_once_and_next_rule_runs() {
    let mut fs = Folders::new().with("/b", &[("x.txt", true)]);
    let engine = run(&mut fs, vec![rule("first", "/a", ".*", "/out"), rule("second", "/b", ".*", "/out")]);
    let o = engine.outcomes();
    assert_eq!(o.len(), 3);
    assert!(matches!(&o[0], Outcome::Warning { folder } if folder == "/a"));
    assert!(o.iter().filter(|x| x.is_file_action()).count() == 1);
    assert_eq!(summaries(&engine), vec![("second".to_string(), 1)]);
    assert!(matches!(engine.action(), Action::Finished));
}

#[test]
fn each_matched_file_recorded_once_and_counted() {
    let mut fs = Folders::new().with("/in", &[("a.log", true), ("b.log", true), ("c.log", true)]);
    fs.failing.push("b.log".to_string());
    let engine = run(&mut fs, vec![rule("logs", "/in", "log", "/out")]);
    let files = moved_files(&engine);
    assert_eq!(files.len(), 3);
    let ok = files.iter().filter(|(_, s)| *s).count();
    assert_eq!(summaries(&engine), vec![("logs".to_string(), ok)]);
    assert_eq!(ok, 2);
}

#[test]
fn unmatched_files_and_folders_left_alone() {
    let mut fs = Folders::new().with("/in", &[("keep.txt", true), ("sub.pdf", false), ("a.pdf", true)]);
    let engine = run(&mut fs, vec![rule("pdfs", "/in", "\\.pdf$", "/out")]);
    assert_eq!(moved_files(&engine), vec![("a.pdf".to_string(), true)]);
    assert_eq!(fs.names("/in"), vec!["keep.txt".to_string(), "sub.pdf".to_string()]);
}

#[test]
fn second_run_moves_nothing() {
    let mut fs = Folders::new().with("/in", &[("a.jpg", true), ("b.jpg", true), ("c.txt", true)]);
    let rules = || vec![rule("images", "/in", "\\.jpg$", "/img")];
    let first = run(&mut fs, rules());
    assert_eq!(summaries(&first), vec![("images".to_string(), 2)]);
    let second = run(&mut fs, rules());
    assert_eq!(summaries(&second), vec![("images".to_string(), 0)]);
    assert!(moved_files(&second).is_empty());
}

#[test]
fn existing_destination_is_no_error() {
    let mut fs = Folders::new().with("/in", &[("a.txt", true)]).with("/out", &[("old.txt", true)]);
    let engine = run(&mut fs, vec![rule("texts", "/in", "txt", "/out")]);
    assert!(engine.outcomes().iter().all(|o| !matches!(o, Outcome::RuleFailed { .. })));
    assert_eq!(fs.names("/out"), vec!["old.txt".to_string(), "a.txt".to_string()]);
    let again = run(&mut fs, vec![rule("texts", "/in", "txt", "/out")]);
    assert!(again.outcomes().iter().all(|o| !matches!(o, Outcome::RuleFailed { .. })));
}

#[test]
fn failed_move_does_not_stop_the_next() {
    let mut fs = Folders::new().with("/in", &[("a.txt", true), ("b.txt", true)]);
    fs.failing.push("a.txt".to_string());
    let engine = run(&mut fs, vec![rule("texts", "/in", "txt", "/out")]);
    assert_eq!(moved_files(&engine), vec![("a.txt".to_string(), false), ("b.txt".to_string(), true)]);
    assert_eq!(fs.names("/out"), vec!["b.txt".to_string()]);
    assert_eq!(fs.names("/in"), vec!["a.txt".to_string()]);
    assert_eq!(summaries(&engine), vec![("texts".to_string(), 1)]);
}

#[test]
fn pdf_rule_moves_only_lowercase_pdf() {
    let mut fs = Folders::new().with("/in", &[("a.pdf", true), ("b.txt", true), ("c.PDF", true)]);
    let engine = run(&mut fs, vec![rule("pdfs", "/in", "\\.pdf$", "/out")]);
    assert_eq!(fs.names("/out"), vec!["a.pdf".to_string()]);
    assert_eq!(fs.names("/in"), vec!["b.txt".to_string(), "c.PDF".to_string()]);
    assert_eq!(summaries(&engine), vec![("pdfs".to_string(), 1)]);
    match &engine.outcomes()[0] {
        Outcome::FileAction { file_name, source_folder, destination_folder, result } => {
            assert_eq!(file_name, "a.pdf");
            assert_eq!(source_folder, "/in");
            assert_eq!(destination_folder, "/out");
            assert!(result.is_ok());
        }
        other => panic!("unexpected {:?}", other),
    }
}

#[test]
fn later_rule_never_sees_moved_images() {
    let mut fs = Folders::new().with("/in", &[("a.png", true), ("notes.txt", true), ("b.jpg", true)]);
    let engine = run(
        &mut fs,
        vec![rule("moveImages", "/in", "\\.(png|jpg)$", "/img"), rule("moveRest", "/in", ".*", "/rest")],
    );
    assert_eq!(fs.names("/img"), vec!["a.png".to_string(), "b.jpg".to_string()]);
    assert_eq!(fs.names("/rest"), vec!["notes.txt".to_string()]);
    assert_eq!(summaries(&engine), vec![("moveImages".to_string(), 2), ("moveRest".to_string(), 1)]);
    assert_eq!(
        moved_files(&engine),
        vec![("a.png".to_string(), true), ("b.jpg".to_string(), true), ("notes.txt".to_string(), true)]
    );
}

#[test]
fn invalid_pattern_skips_only_that_rule() {
    let mut fs = Folders::new().with("/in", &[("a.txt", true)]);
    let engine = run(&mut fs, vec![rule("bad", "/in", "foo(bar", "/out"), rule("good", "/in", "txt", "/out")]);
    match &engine.outcomes()[0] {
        Outcome::RuleFailed { rule, error: RuleError::Pattern(e) } => {
            assert_eq!(rule, "bad");
            assert_eq!(e.pattern, "foo(bar");
            assert!(!e.message.is_empty());
        }
        other => panic!("unexpected {:?}", other),
    }
    assert_eq!(summaries(&engine), vec![("good".to_string(), 1)]);
}

#[test]
fn uncreatable_destination_skips_only_that_rule() {
    let mut fs = Folders::new().with("/in", &[("a.txt", true)]);
    fs.uncreatable.push("/locked".to_string());
    let engine = run(&mut fs, vec![rule("r1", "/in", "txt", "/locked"), rule("r2", "/in", "txt", "/out")]);
    match &engine.outcomes()[0] {
        Outcome::RuleFailed { rule, error: RuleError::DirectoryCreate { folder, message } } => {
            assert_eq!(rule, "r1");
            assert_eq!(folder, "/locked");
            assert_eq!(message, "denied");
        }
        other => panic!("unexpected {:?}", other),
    }
    assert_eq!(summaries(&engine), vec![("r2".to_string(), 1)]);
}

#[test]
fn listing_failure_aborts_the_run() {
    let mut fs = Folders::new().with("/in", &[("a.txt", true)]).with("/other", &[("b.txt", true)]);
    fs.unlistable.push("/in".to_string());
    let engine = run(&mut fs, vec![rule("r1", "/in", "txt", "/out"), rule("r2", "/other", "txt", "/out")]);
    assert!(matches!(engine.action(), Action::Aborted));
    assert!(matches!(engine.error(), Some(ListError::ReadDir { .. })));
    assert!(engine.rule_in_progress().is_none());
    assert!(engine.outcomes().is_empty());
    assert_eq!(fs.names("/other"), vec!["b.txt".to_string()]);
}

#[test]
fn empty_configuration_finishes_at_once() {
    let engine = Engine::new(Config::new(Vec::new()), RelocationPolicy::Rename);
    assert!(matches!(engine.action(), Action::Finished));
    assert!(engine.outcomes().is_empty());
}

#[test]
fn unrelated_event_changes_nothing() {
    let mut engine = Engine::new(Config::new(vec![rule("r", "/in", "x", "/out")]), RelocationPolicy::Rename);
    let action = engine.step(Event::Relocated { result: Ok(()) });
    assert!(matches!(action, Action::CheckSource { folder } if folder == "/in"));
    assert!(engine.outcomes().is_empty());
}

#[test]
fn relocate_action_carries_policy_and_folders() {
    let mut engine = Engine::new(Config::new(vec![rule("r", "/in", "x", "/out")]), RelocationPolicy::Rename);
    assert_eq!(engine.rule_in_progress().map(|r| r.name.clone()), Some("r".to_string()));
    engine.step(Event::SourceChecked { exists: true });
    engine.step(Event::DestinationPrepared { result: Ok(()) });
    let entries = vec![Entry { name: "x1".to_string(), is_file: true }];
    match engine.step(Event::Listed { result: Ok(entries) }) {
        Action::Relocate { file_name, source_folder, destination_folder, policy } => {
            assert_eq!(file_name, "x1");
            assert_eq!(source_folder, "/in");
            assert_eq!(destination_folder, "/out");
            assert_eq!(policy, RelocationPolicy::Rename);
        }
        other => panic!("unexpected {:?}", other),
    }
}
