use vstd::prelude::*;
use crate::matcher::{Matcher, regex_finds, regex_refusal};
use crate::outcome::{ListError, Outcome, OutcomeView, RelocationError, RelocationPolicy, RuleError, RuleErrorView};
use crate::rules::{Config, Rule};

verus! {

/// One direct child of a source folder, as the caller saw it.
#[derive(Clone, Debug)]
pub struct Entry {
    pub name: String,
    /// A regular file: not a directory, nor a link to one, nor a special file.
    pub is_file: bool,
}

/// What the caller reports after performing the engine's last `Action`.
#[derive(Debug)]
pub enum Event {
    SourceChecked { exists: bool },
    /// The destination folder exists now, or could not be created.
    DestinationPrepared { result: Result<(), String> },
    Listed { result: Result<Vec<Entry>, ListError> },
    Relocated { result: Result<(), RelocationError> },
}

/// What the engine asks the caller to do next.
#[derive(Debug)]
pub enum Action {
    /// Tell whether this folder exists.
    CheckSource { folder: String },
    /// Create this folder and its ancestors where absent.
    PrepareDestination { folder: String },
    /// List the direct children of this folder.
    ListFolder { folder: String },
    /// Move one file from `source_folder` to `destination_folder`, keeping its name.
    Relocate {
        file_name: String,
        source_folder: String,
        destination_folder: String,
        policy: RelocationPolicy,
    },
    /// Every rule has run.
    Finished,
    /// A folder could not be enumerated; the run stops here.
    Aborted,
}

pub enum EventView {
    SourceChecked { exists: bool },
    DestinationPrepared { result: Result<(), String> },
    Listed { result: Result<Seq<Entry>, ListError> },
    Relocated { result: Result<(), RelocationError> },
}

impl View for Event {
    type V = EventView;

    open spec fn view(&self) -> EventView {
        match self {
            Event::SourceChecked { exists } => EventView::SourceChecked { exists: *exists },
            Event::DestinationPrepared { result } => EventView::DestinationPrepared {
                result: *result,
            },
            Event::Listed { result } => EventView::Listed {
                result: match result {
                    Ok(v) => Ok(v@),
                    Err(e) => Err(*e),
                },
            },
            Event::Relocated { result } => EventView::Relocated { result: *result },
        }
    }
}

enum Stage {
    CheckSource,
    PrepareDestination,
    List { matcher: Matcher },
    Relocate { names: Vec<String>, index: usize, moved: usize },
    Finished,
    Aborted { error: ListError },
}

pub enum StageView {
    /// Waiting to learn whether the current rule's source folder exists.
    CheckSource,
    /// Waiting for the destination folder.
    PrepareDestination,
    /// Waiting for the listing of the source folder.
    List { pattern: Seq<char> },
    /// Moving the selected `names`; `index` is the one in progress, `moved`
    /// counts the earlier ones that succeeded.
    Relocate { names: Seq<String>, index: nat, moved: nat },
    Finished,
    Aborted { error: ListError },
}

impl View for Stage {
    type V = StageView;

    closed spec fn view(&self) -> StageView {
        match self {
            Stage::CheckSource => StageView::CheckSource,
            Stage::PrepareDestination => StageView::PrepareDestination,
            Stage::List { matcher } => StageView::List { pattern: matcher@ },
            Stage::Relocate { names, index, moved } => StageView::Relocate {
                names: names@,
                index: *index as nat,
                moved: *moved as nat,
            },
            Stage::Finished => StageView::Finished,
            Stage::Aborted { error } => StageView::Aborted { error: *error },
        }
    }
}

pub struct EngineView {
    pub rules: Seq<Rule>,
    pub policy: RelocationPolicy,
    /// Index of the rule in progress (of the last rule, once finished).
    pub current: nat,
    pub stage: StageView,
    pub outcomes: Seq<OutcomeView>,
}

/// A file is selected when it is a regular file whose name the pattern finds.
pub open spec fn wanted(pattern: Seq<char>, e: Entry) -> bool {
    e.is_file && regex_finds(pattern, e.name@)
}

/// The names of the selected entries, in listing order.
pub open spec fn selected(pattern: Seq<char>, entries: Seq<Entry>) -> Seq<String>
    decreases entries.len(),
{
    if entries.len() == 0 {
        Seq::empty()
    } else {
        let rest = selected(pattern, entries.drop_last());
        if wanted(pattern, entries.last()) {
            rest.push(entries.last().name)
        } else {
            rest
        }
    }
}

pub open spec fn well_formed(m: EngineView) -> bool {
    &&& (m.stage is Finished || m.current < m.rules.len())
    &&& (m.stage matches StageView::Relocate { names, index, moved } ==> index < names.len()
        && moved <= index)
}

pub open spec fn current_rule(m: EngineView) -> Rule {
    m.rules[m.current as int]
}

pub open spec fn with_stage(m: EngineView, stage: StageView, outcomes: Seq<OutcomeView>) -> EngineView {
    EngineView { rules: m.rules, policy: m.policy, current: m.current, stage, outcomes }
}

/// Close the current rule: on to the next one, or finished after the last.
pub open spec fn advance(m: EngineView, outcomes: Seq<OutcomeView>) -> EngineView {
    if m.current + 1 < m.rules.len() {
        EngineView {
            rules: m.rules,
            policy: m.policy,
            current: m.current + 1,
            stage: StageView::CheckSource,
            outcomes,
        }
    } else {
        with_stage(m, StageView::Finished, outcomes)
    }
}

pub open spec fn initial(rules: Seq<Rule>, policy: RelocationPolicy) -> EngineView {
    EngineView {
        rules,
        policy,
        current: 0,
        stage: if rules.len() == 0 {
            StageView::Finished
        } else {
            StageView::CheckSource
        },
        outcomes: Seq::empty(),
    }
}

pub open spec fn summary(rule: Rule, moved: nat) -> OutcomeView {
    OutcomeView::RuleSummary { rule: rule.name@, moved }
}

pub open spec fn file_action(rule: Rule, name: String, result: Result<(), RelocationError>) -> OutcomeView {
    OutcomeView::FileAction {
        file_name: name@,
        source_folder: rule.source_folder@,
        destination_folder: rule.destination_folder@,
        result,
    }
}

/// Start moving `names`; a rule that selected nothing ends at once with a
/// summary of zero.
pub open spec fn begin_relocation(m: EngineView, names: Seq<String>) -> EngineView {
    if names.len() == 0 {
        advance(m, m.outcomes.push(summary(current_rule(m), 0)))
    } else {
        with_stage(m, StageView::Relocate { names, index: 0, moved: 0 }, m.outcomes)
    }
}

/// The state after `e`. An event that does not answer the pending action
/// changes nothing.
pub open spec fn next(m: EngineView, e: EventView) -> EngineView {
    let rule = current_rule(m);
    match m.stage {
        StageView::CheckSource => match e {
            EventView::SourceChecked { exists } => if exists {
                with_stage(m, StageView::PrepareDestination, m.outcomes)
            } else {
                advance(m, m.outcomes.push(OutcomeView::Warning { folder: rule.source_folder@ }))
            },
            _ => m,
        },
        StageView::PrepareDestination => match e {
            EventView::DestinationPrepared { result } => match result {
                Err(message) => advance(
                    m,
                    m.outcomes.push(
                        OutcomeView::RuleFailed {
                            rule: rule.name@,
                            error: RuleErrorView::DirectoryCreate {
                                folder: rule.destination_folder@,
                                message: message@,
                            },
                        },
                    ),
                ),
                Ok(_) => match regex_refusal(rule.pattern@) {
                    None => with_stage(m, StageView::List { pattern: rule.pattern@ }, m.outcomes),
                    Some(message) => advance(
                        m,
                        m.outcomes.push(
                            OutcomeView::RuleFailed {
                                rule: rule.name@,
                                error: RuleErrorView::Pattern { pattern: rule.pattern@, message },
                            },
                        ),
                    ),
                },
            },
            _ => m,
        },
        StageView::List { pattern } => match e {
            EventView::Listed { result } => match result {
                Err(error) => with_stage(m, StageView::Aborted { error }, m.outcomes),
                Ok(entries) => begin_relocation(m, selected(pattern, entries)),
            },
            _ => m,
        },
        StageView::Relocate { names, index, moved } => match e {
            EventView::Relocated { result } => {
                let outcomes = m.outcomes.push(file_action(rule, names[index as int], result));
                let moved = if result is Ok {
                    moved + 1
                } else {
                    moved
                };
                if index + 1 < names.len() {
                    with_stage(m, StageView::Relocate { names, index: index + 1, moved }, outcomes)
                } else {
                    advance(m, outcomes.push(summary(rule, moved)))
                }
            },
            _ => m,
        },
        _ => m,
    }
}

/// The action that the state `m` waits on.
pub open spec fn pending(m: EngineView) -> Action {
    let rule = current_rule(m);
    match m.stage {
        StageView::CheckSource => Action::CheckSource { folder: rule.source_folder },
        StageView::PrepareDestination => Action::PrepareDestination {
            folder: rule.destination_folder,
        },
        StageView::List { .. } => Action::ListFolder { folder: rule.source_folder },
        StageView::Relocate { names, index, .. } => Action::Relocate {
            file_name: names[index as int],
            source_folder: rule.source_folder,
            destination_folder: rule.destination_folder,
            policy: m.policy,
        },
        StageView::Finished => Action::Finished,
        StageView::Aborted { .. } => Action::Aborted,
    }
}

/// The names of the regular files among `entries` that `matcher` finds, in order.
pub fn select(matcher: &Matcher, entries: Vec<Entry>) -> (r: Vec<String>)
    ensures
        r@ == selected(matcher@, entries@),
{
    let mut r: Vec<String> = Vec::new();
    let mut i: usize = 0;
    while i < entries.len()
        invariant
            i <= entries@.len(),
            r@ == selected(matcher@, entries@.take(i as int)),
        decreases entries@.len() - i,
    {
        let e = &entries[i];
        proof {
            assert(entries@.take(i + 1).drop_last() =~= entries@.take(i as int));
        }
        if e.is_file && matcher.matches(e.name.as_str()) {
            r.push(e.name.clone());
        }
        i = i + 1;
    }
    proof {
        assert(entries@.take(i as int) =~= entries@);
    }
    r
}

/// The run of one configuration, one decision at a time. The caller performs
/// each `Action` it hands out and answers with the matching `Event`.
pub struct Engine {
    rules: Vec<Rule>,
    policy: RelocationPolicy,
    current: usize,
    stage: Stage,
    outcomes: Vec<Outcome>,
}

impl View for Engine {
    type V = EngineView;

    closed spec fn view(&self) -> EngineView {
        EngineView {
            rules: self.rules@,
            policy: self.policy,
            current: self.current as nat,
            stage: self.stage@,
            outcomes: self.outcomes@.map_values(|o: Outcome| o@),
        }
    }
}

impl Engine {
    #[verifier::type_invariant]
    closed spec fn inv(&self) -> bool {
        well_formed(self@)
    }

    pub fn new(config: Config, policy: RelocationPolicy) -> (e: Engine)
        ensures
            e@ == initial(config.rules@, policy),
    {
        let stage = if config.rules.len() == 0 {
            Stage::Finished
        } else {
            Stage::CheckSource
        };
        let e = Engine { rules: config.rules, policy, current: 0, stage, outcomes: Vec::new() };
        proof {
            assert(e@.outcomes =~= Seq::<OutcomeView>::empty());
        }
        e
    }

    /// The action that the engine waits on.
    pub fn action(&self) -> (a: Action)
        ensures
            a == pending(self@),
    {
        proof {
            use_type_invariant(self);
        }
        match &self.stage {
            Stage::CheckSource => Action::CheckSource {
                folder: self.rules[self.current].source_folder.clone(),
            },
            Stage::PrepareDestination => Action::PrepareDestination {
                folder: self.rules[self.current].destination_folder.clone(),
            },
            Stage::List { .. } => Action::ListFolder {
                folder: self.rules[self.current].source_folder.clone(),
            },
            Stage::Relocate { names, index, .. } => Action::Relocate {
                file_name: names[*index].clone(),
                source_folder: self.rules[self.current].source_folder.clone(),
                destination_folder: self.rules[self.current].destination_folder.clone(),
                policy: self.policy,
            },
            Stage::Finished => Action::Finished,
            Stage::Aborted { .. } => Action::Aborted,
        }
    }

    /// Append one record.
    fn record(&mut self, o: Outcome)
        ensures
            final(self)@ == with_stage(old(self)@, old(self)@.stage, old(self)@.outcomes.push(o@)),
    {
        proof {
            use_type_invariant(&*self);
        }
        let mut outcomes: Vec<Outcome> = Vec::new();
        core::mem::swap(&mut outcomes, &mut self.outcomes);
        outcomes.push(o);
        self.outcomes = outcomes;
        proof {
            assert(self@.outcomes =~= old(self)@.outcomes.push(o@));
        }
    }

    /// Close the current rule.
    fn advance(&mut self)
        requires
            old(self)@.current < old(self)@.rules.len(),
        ensures
            final(self)@ == advance(old(self)@, old(self)@.outcomes),
    {
        proof {
            use_type_invariant(&*self);
        }
        let n = self.rules.len();
        if self.current + 1 < n {
            self.current = self.current + 1;
            self.stage = Stage::CheckSource;
        } else {
            self.stage = Stage::Finished;
        }
    }

    /// Take in the answer to the pending action and return the next action.
    pub fn step(&mut self, event: Event) -> (a: Action)
        ensures
            final(self)@ == next(old(self)@, event@),
            a == pending(final(self)@),
    {
        proof {
            use_type_invariant(&*self);
        }
        let mut stage = Stage::Finished;
        core::mem::swap(&mut stage, &mut self.stage);
        let ghost m = old(self)@;
        assert(self@ == with_stage(m, StageView::Finished, m.outcomes));
        assert(stage@ == m.stage);
        match stage {
            Stage::CheckSource => match event {
                Event::SourceChecked { exists } => {
                    if exists {
                        self.stage = Stage::PrepareDestination;
                    } else {
                        let folder = self.rules[self.current].source_folder.clone();
                        self.record(Outcome::Warning { folder });
                        self.advance();
                    }
                },
                _ => {
                    self.stage = Stage::CheckSource;
                },
            },
            Stage::PrepareDestination => match event {
                Event::DestinationPrepared { result } => match result {
                    Err(message) => {
                        let rule = self.rules[self.current].name.clone();
                        let folder = self.rules[self.current].destination_folder.clone();
                        self.record(
                            Outcome::RuleFailed {
                                rule,
                                error: RuleError::DirectoryCreate { folder, message },
                            },
                        );
                        self.advance();
                    },
                    Ok(()) => {
                        match Matcher::compile(self.rules[self.current].pattern.as_str()) {
                            Ok(matcher) => {
                                self.stage = Stage::List { matcher };
                            },
                            Err(e) => {
                                let rule = self.rules[self.current].name.clone();
                                self.record(Outcome::RuleFailed { rule, error: RuleError::Pattern(e) });
                                self.advance();
                            },
                        }
                    },
                },
                _ => {
                    self.stage = Stage::PrepareDestination;
                },
            },
            Stage::List { matcher } => match event {
                Event::Listed { result } => match result {
                    Err(error) => {
                        self.stage = Stage::Aborted { error };
                    },
                    Ok(entries) => {
                        let names = select(&matcher, entries);
                        if names.len() == 0 {
                            let rule = self.rules[self.current].name.clone();
                            self.record(Outcome::RuleSummary { rule, moved: 0 });
                            self.advance();
                        } else {
                            self.stage = Stage::Relocate { names, index: 0, moved: 0 };
                        }
                    },
                },
                _ => {
                    self.stage = Stage::List { matcher };
                },
            },
            Stage::Relocate { names, index, moved } => match event {
                Event::Relocated { result } => {
                    let n = names.len();
                    let ok = result.is_ok();
                    let file_name = names[index].clone();
                    let source_folder = self.rules[self.current].source_folder.clone();
                    let destination_folder = self.rules[self.current].destination_folder.clone();
                    self.record(
                        Outcome::FileAction { file_name, source_folder, destination_folder, result },
                    );
                    let moved = if ok {
                        moved + 1
                    } else {
                        moved
                    };
                    if index + 1 < n {
                        self.stage = Stage::Relocate { names, index: index + 1, moved };
                    } else {
                        let rule = self.rules[self.current].name.clone();
                        self.record(Outcome::RuleSummary { rule, moved });
                        self.advance();
                    }
                },
                _ => {
                    self.stage = Stage::Relocate { names, index, moved };
                },
            },
            Stage::Finished => {},
            Stage::Aborted { error } => {
                self.stage = Stage::Aborted { error };
            },
        }
        self.action()
    }

    /// The records so far, in the order they were made.
    pub fn outcomes(&self) -> (r: &Vec<Outcome>)
        ensures
            r@.map_values(|o: Outcome| o@) == self@.outcomes,
    {
        &self.outcomes
    }

    /// The rule in progress; `None` once the run has finished or stopped.
    pub fn rule_in_progress(&self) -> (r: Option<&Rule>)
        ensures
            match self@.stage {
                StageView::Finished | StageView::Aborted { .. } => r is None,
                _ => r == Some(&current_rule(self@)),
            },
    {
        proof {
            use_type_invariant(self);
        }
        match &self.stage {
            Stage::Finished | Stage::Aborted { .. } => None,
            _ => Some(&self.rules[self.current]),
        }
    }

    /// The error that stopped the run, if one did.
    pub fn error(&self) -> (r: Option<&ListError>)
        ensures
            match self@.stage {
                StageView::Aborted { error } => r == Some(&error),
                _ => r is None,
            },
    {
        match &self.stage {
            Stage::Aborted { error } => Some(error),
            _ => None,
        }
    }
}

} // verus!
