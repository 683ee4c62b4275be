use vstd::prelude::*;
use crate::engine::{
    Action, EngineView, Entry, EventView, StageView, advance, current_rule, file_action, next,
    pending, selected, summary, wanted, well_formed, with_stage,
};
use crate::matcher::regex_refusal;
use crate::outcome::{OutcomeView, RelocationError};
use crate::rules::Rule;

verus! {

/// The state after the events `es`, one after another.
pub open spec fn run_events(m: EngineView, es: Seq<EventView>) -> EngineView
    decreases es.len(),
{
    if es.len() == 0 {
        m
    } else {
        run_events(next(m, es[0]), es.drop_first())
    }
}

/// The answers to a series of relocations.
pub open spec fn relocated(results: Seq<Result<(), RelocationError>>) -> Seq<EventView> {
    results.map_values(|r: Result<(), RelocationError>| EventView::Relocated { result: r })
}

/// How many of `results` succeeded.
pub open spec fn successes(results: Seq<Result<(), RelocationError>>) -> nat
    decreases results.len(),
{
    if results.len() == 0 {
        0
    } else {
        successes(results.drop_last()) + if results.last() is Ok {
            1nat
        } else {
            0nat
        }
    }
}

/// The first `k` file records of a rule, one per name with its result.
pub open spec fn file_actions(
    rule: Rule,
    names: Seq<String>,
    results: Seq<Result<(), RelocationError>>,
    k: nat,
) -> Seq<OutcomeView> {
    Seq::new(k, |i: int| file_action(rule, names[i], results[i]))
}

/// A rule whose source folder is missing gets exactly one warning and no file
/// record, and the run goes on with the next rule.
pub proof fn missing_source_warns_and_continues(m: EngineView)
    requires
        well_formed(m),
        m.stage is CheckSource,
    ensures
        ({
            let m2 = next(m, EventView::SourceChecked { exists: false });
            &&& m2.outcomes == m.outcomes.push(
                OutcomeView::Warning { folder: current_rule(m).source_folder@ },
            )
            &&& m.current + 1 < m.rules.len() ==> m2.current == m.current + 1 && pending(m2)
                == (Action::CheckSource { folder: m.rules[m.current + 1 as int].source_folder })
            &&& m.current + 1 >= m.rules.len() ==> pending(m2) == Action::Finished
        }),
{
}

/// A destination folder that is there (made now or before) adds no record:
/// the rule goes on to list its source folder.
pub proof fn ready_destination_adds_no_record(m: EngineView)
    requires
        well_formed(m),
        m.stage is PrepareDestination,
        regex_refusal(current_rule(m).pattern@) is None,
    ensures
        ({
            let m2 = next(m, EventView::DestinationPrepared { result: Ok(()) });
            &&& m2.outcomes == m.outcomes
            &&& pending(m2) == (Action::ListFolder { folder: current_rule(m).source_folder })
        }),
{
}

proof fn lemma_successes_step(results: Seq<Result<(), RelocationError>>, k: nat)
    requires
        k < results.len(),
    ensures
        successes(results.take(k + 1 as int)) == successes(results.take(k as int)) + if results[k as int] is Ok {
            1nat
        } else {
            0nat
        },
{
    assert(results.take(k + 1 as int).drop_last() =~= results.take(k as int));
}

proof fn lemma_relocate_rest(
    m: EngineView,
    names: Seq<String>,
    results: Seq<Result<(), RelocationError>>,
    base: Seq<OutcomeView>,
    k: nat,
)
    requires
        well_formed(m),
        results.len() == names.len(),
        k < names.len(),
        m.stage == (StageView::Relocate { names, index: k, moved: successes(results.take(k as int)) }),
        m.outcomes == base + file_actions(current_rule(m), names, results, k),
    ensures
        run_events(m, relocated(results.skip(k as int))) == advance(
            m,
            (base + file_actions(current_rule(m), names, results, names.len())).push(
                summary(current_rule(m), successes(results)),
            ),
        ),
    decreases names.len() - k,
{
    let es = relocated(results.skip(k as int));
    assert(es[0] == EventView::Relocated { result: results[k as int] });
    assert(es.drop_first() =~= relocated(results.skip(k + 1 as int)));
    lemma_successes_step(results, k);
    let m1 = next(m, es[0]);
    assert(base + file_actions(current_rule(m), names, results, k + 1) =~= (base + file_actions(
        current_rule(m),
        names,
        results,
        k,
    )).push(file_action(current_rule(m), names[k as int], results[k as int])));
    if k + 1 < names.len() {
        assert(m1 == with_stage(
            m,
            StageView::Relocate { names, index: k + 1, moved: successes(results.take(k + 1 as int)) },
            base + file_actions(current_rule(m), names, results, k + 1),
        ));
        assert(current_rule(m1) == current_rule(m));
        lemma_relocate_rest(m1, names, results, base, k + 1);
        assert(advance(m1, (base + file_actions(current_rule(m), names, results, names.len())).push(
            summary(current_rule(m), successes(results)))) == advance(m, (base + file_actions(
            current_rule(m), names, results, names.len())).push(summary(current_rule(m), successes(results)))));
    } else {
        assert(results.take(k + 1 as int) =~= results);
        assert(es.drop_first().len() == 0);
        assert(run_events(m1, es.drop_first()) == m1);
    }
}

/// Once the source folder is listed, each selected file (a regular file whose
/// name the pattern finds) gets exactly one record, in listing order, whatever
/// the outcome of the others; the rule's summary counts the moves that
/// succeeded; then the run goes on with the next rule.
pub proof fn each_selected_file_recorded_once(
    m: EngineView,
    entries: Seq<Entry>,
    results: Seq<Result<(), RelocationError>>,
)
    requires
        well_formed(m),
        m.stage is List,
        results.len() == selected(m.stage->List_pattern, entries).len(),
    ensures
        ({
            let names = selected(m.stage->List_pattern, entries);
            run_events(m, seq![EventView::Listed { result: Ok(entries) }] + relocated(results))
                == advance(
                m,
                (m.outcomes + file_actions(current_rule(m), names, results, names.len())).push(
                    summary(current_rule(m), successes(results)),
                ),
            )
        }),
{
    let names = selected(m.stage->List_pattern, entries);
    let es = seq![EventView::Listed { result: Ok(entries) }] + relocated(results);
    assert(es[0] == EventView::Listed { result: Ok(entries) });
    assert(es.drop_first() =~= relocated(results));
    let m1 = next(m, es[0]);
    if names.len() == 0 {
        assert(file_actions(current_rule(m), names, results, 0) =~= Seq::<OutcomeView>::empty());
        assert(m.outcomes + Seq::<OutcomeView>::empty() =~= m.outcomes);
        assert(results.len() == 0);
        assert(relocated(results).len() == 0);
        assert(successes(results) == 0);
        assert(run_events(m1, es.drop_first()) == m1);
    } else {
        assert(file_actions(current_rule(m), names, results, 0) =~= Seq::<OutcomeView>::empty());
        assert(m.outcomes + file_actions(current_rule(m), names, results, 0) =~= m.outcomes);
        assert(results.take(0) =~= Seq::<Result<(), RelocationError>>::empty());
        assert(results.skip(0) =~= results);
        assert(current_rule(m1) == current_rule(m));
        lemma_relocate_rest(m1, names, results, m.outcomes, 0);
        let total = (m.outcomes + file_actions(current_rule(m), names, results, names.len())).push(
            summary(current_rule(m), successes(results)),
        );
        assert(advance(m1, total) == advance(m, total));
        assert(run_events(m, es) == run_events(m1, es.drop_first()));
    }
}

/// `name` is the name of a listed regular file that the pattern finds.
pub open spec fn names_wanted_entry(pattern: Seq<char>, entries: Seq<Entry>, name: String) -> bool {
    exists|j: int| 0 <= j < entries.len() && #[trigger] wanted(pattern, entries[j]) && entries[j].name == name
}

/// Every selected name belongs to a listed regular file whose name the
/// pattern finds: no other entry is ever moved.
pub proof fn only_wanted_entries_selected(pattern: Seq<char>, entries: Seq<Entry>)
    ensures
        forall|i: int|
            0 <= i < selected(pattern, entries).len() ==> names_wanted_entry(
                pattern,
                entries,
                #[trigger] selected(pattern, entries)[i],
            ),
    decreases entries.len(),
{
    if entries.len() > 0 {
        let rest = entries.drop_last();
        only_wanted_entries_selected(pattern, rest);
        assert forall|i: int| 0 <= i < selected(pattern, entries).len() implies names_wanted_entry(
            pattern,
            entries,
            #[trigger] selected(pattern, entries)[i],
        ) by {
            if i < selected(pattern, rest).len() {
                assert(names_wanted_entry(pattern, rest, selected(pattern, rest)[i]));
                let j = choose|j: int|
                    0 <= j < rest.len() && #[trigger] wanted(pattern, rest[j]) && rest[j].name
                        == selected(pattern, rest)[i];
                assert(entries[j] == rest[j]);
                assert(selected(pattern, entries)[i] == selected(pattern, rest)[i]);
            } else {
                let last = entries.len() - 1;
                assert(entries[last] == entries.last());
                assert(wanted(pattern, entries[last]));
            }
        }
    }
}

/// A listing in which nothing is selected moves nothing: the rule ends with a
/// summary of zero. So a second run over folders that the first one emptied
/// of matches reports zero moves.
pub proof fn nothing_selected_moves_nothing(m: EngineView, entries: Seq<Entry>)
    requires
        well_formed(m),
        m.stage is List,
        forall|j: int| 0 <= j < entries.len() ==> !#[trigger] wanted(m.stage->List_pattern, entries[j]),
    ensures
        next(m, EventView::Listed { result: Ok(entries) }) == advance(
            m,
            m.outcomes.push(summary(current_rule(m), 0)),
        ),
{
    only_wanted_entries_selected(m.stage->List_pattern, entries);
    if selected(m.stage->List_pattern, entries).len() > 0 {
        assert(names_wanted_entry(m.stage->List_pattern, entries, selected(m.stage->List_pattern, entries)[0]));
    }
}

} // verus!
