use vstd::prelude::*;
use crate::catalog::catalog;
use crate::error::DepErrorView;
use crate::invocation::{add_invocation, picked};
use crate::manifest::{declared_names, manifest_parses};
use crate::session::{
    action_of, item_invocation, start, step, well_formed, ActionView, Event, Kind, SessionView, Stage,
};

verus! {

/// Whether `e` answers a tool invocation: the tool exited, or could not be launched.
pub open spec fn answers_run(e: Event) -> bool {
    e is Exited || e is LaunchFailed
}

/// The tool invocations that a session in state `s` makes while it receives
/// the events `es`, in order.
pub open spec fn invocations(s: SessionView, es: Seq<Event>) -> Seq<Seq<Seq<char>>>
    decreases es.len(),
{
    if es.len() == 0 {
        Seq::empty()
    } else {
        let here = match action_of(s) {
            ActionView::Run { args, output, dir } => if answers_run(es[0]) {
                seq![args]
            } else {
                Seq::empty()
            },
            _ => Seq::empty(),
        };
        here + invocations(step(s, es[0]), es.drop_first())
    }
}

/// The state a session in state `s` reaches after the events `es`.
pub open spec fn after(s: SessionView, es: Seq<Event>) -> SessionView
    decreases es.len(),
{
    if es.len() == 0 {
        s
    } else {
        after(step(s, es[0]), es.drop_first())
    }
}

/// The verb of the per-item invocations of a command of `kind`.
pub open spec fn item_verb(kind: Kind) -> Seq<char> {
    match kind {
        Kind::Add => "add"@,
        Kind::Remove => "remove"@,
        _ => "update"@,
    }
}

/// A finished session stays as it is and invokes nothing more, whatever it receives.
pub proof fn lemma_done_is_final(s: SessionView, es: Seq<Event>)
    requires
        s.stage == Stage::Done,
    ensures
        invocations(s, es).len() == 0,
        after(s, es) == s,
    decreases es.len(),
{
    if es.len() > 0 {
        lemma_done_is_final(step(s, es[0]), es.drop_first());
    }
}

/// While a session works through its named dependencies, it invokes the tool
/// once per name, in the given order, each invocation naming its dependency
/// after the command's verb; a session that ends successfully has invoked the
/// tool for every remaining name.
pub proof fn lemma_items_in_order(s: SessionView, es: Seq<Event>)
    requires
        s.stage == Stage::Items,
        s.next <= s.names.len(),
    ensures
        s.next + invocations(s, es).len() <= s.names.len(),
        forall|j: int|
            0 <= j < invocations(s, es).len() ==> {
                &&& (#[trigger] invocations(s, es)[j]).len() >= 2
                &&& invocations(s, es)[j][0] == item_verb(s.kind)
                &&& invocations(s, es)[j][1] == s.names[s.next + j]
            },
        after(s, es).stage == Stage::Done && after(s, es).failure is None ==> s.next + invocations(
            s,
            es,
        ).len() == s.names.len(),
    decreases es.len(),
{
    if es.len() == 0 {
        return;
    }
    let e = es[0];
    let rest = es.drop_first();
    let t = step(s, e);
    if s.next < s.names.len() {
        if t.stage == Stage::Done {
            lemma_done_is_final(t, rest);
        } else {
            lemma_items_in_order(t, rest);
        }
        match action_of(s) {
            ActionView::Run { args, output, dir } => {
                let inv = item_invocation(s);
                assert(inv.len() >= 2 && inv[0] == item_verb(s.kind) && inv[1] == s.names[s.next as int]);
                if answers_run(e) {
                    assert(invocations(s, es) == seq![inv] + invocations(t, rest));
                    if t.stage != Stage::Done {
                        assert(t.next == s.next + 1);
                    }
                } else {
                    assert(invocations(s, es) =~= invocations(t, rest));
                }
            },
            _ => {
                assert(invocations(s, es) =~= invocations(t, rest));
            },
        }
    } else {
        assert(t == s);
        lemma_items_in_order(t, rest);
        assert(invocations(s, es) =~= invocations(t, rest));
    }
}

/// An `add`, `remove` or `update` command given a non-empty list of names
/// invokes the tool once per name, in the given order, and on success for
/// every one of them.
pub proof fn lemma_named_batch_in_order(s: SessionView, es: Seq<Event>)
    requires
        s.stage == Stage::Locate,
        s.kind != Kind::Analyze,
        s.names.len() > 0,
        s.next == 0,
    ensures
        invocations(s, es).len() <= s.names.len(),
        forall|j: int|
            0 <= j < invocations(s, es).len() ==> {
                &&& (#[trigger] invocations(s, es)[j]).len() >= 2
                &&& invocations(s, es)[j][0] == item_verb(s.kind)
                &&& invocations(s, es)[j][1] == s.names[j]
            },
        after(s, es).stage == Stage::Done && after(s, es).failure is None ==> invocations(s, es).len()
            == s.names.len(),
    decreases es.len(),
{
    if es.len() == 0 {
        return;
    }
    let t = step(s, es[0]);
    let rest = es.drop_first();
    assert(invocations(s, es) =~= invocations(t, rest));
    if t.stage == Stage::Done {
        lemma_done_is_final(t, rest);
    } else if t.stage == Stage::Items {
        lemma_items_in_order(t, rest);
    } else {
        assert(t == s);
        lemma_named_batch_in_order(t, rest);
    }
}

/// An unsuccessful exit of a mutating invocation ends the session with a
/// tool failure, and nothing further is invoked.
pub proof fn lemma_failure_halts(s: SessionView, e: Event, es: Seq<Event>)
    requires
        s.stage == Stage::Items || s.stage == Stage::UpdateAll,
        action_of(s) is Run,
        e matches Event::Exited { success, stdout, stderr } && !success,
    ensures
        step(s, e).stage == Stage::Done,
        step(s, e).failure matches Some(DepErrorView::ToolFailed { op, name, stderr }),
        invocations(step(s, e), es).len() == 0,
{
    lemma_done_is_final(step(s, e), es);
}

proof fn lemma_bulk_stage(s: SessionView, es: Seq<Event>)
    requires
        s.stage == Stage::UpdateAll,
    ensures
        invocations(s, es).len() <= 1,
        forall|j: int| 0 <= j < invocations(s, es).len() ==> #[trigger] invocations(s, es)[j] == seq!["update"@],
    decreases es.len(),
{
    if es.len() == 0 {
        return;
    }
    let t = step(s, es[0]);
    let rest = es.drop_first();
    if answers_run(es[0]) {
        lemma_done_is_final(t, rest);
        assert(invocations(s, es) =~= seq![seq!["update"@]]);
    } else {
        assert(t == s);
        lemma_bulk_stage(t, rest);
        assert(invocations(s, es) =~= invocations(t, rest));
    }
}

/// An `update` command without names makes at most one invocation, the bulk
/// `update` without a name, whatever happens.
pub proof fn lemma_bulk_update(path: Option<Seq<char>>, es: Seq<Event>)
    ensures
        invocations(start(Kind::Update, path, Seq::empty(), false, None, None), es).len() <= 1,
        forall|j: int|
            0 <= j < invocations(start(Kind::Update, path, Seq::empty(), false, None, None), es).len()
                ==> #[trigger] invocations(start(Kind::Update, path, Seq::empty(), false, None, None), es)[j]
                == seq!["update"@],
    decreases es.len(),
{
    lemma_bulk_from(start(Kind::Update, path, Seq::empty(), false, None, None), es);
}

proof fn lemma_bulk_from(s: SessionView, es: Seq<Event>)
    requires
        s.stage == Stage::Locate,
        s.kind == Kind::Update,
        s.names.len() == 0,
    ensures
        invocations(s, es).len() <= 1,
        forall|j: int| 0 <= j < invocations(s, es).len() ==> #[trigger] invocations(s, es)[j] == seq!["update"@],
    decreases es.len(),
{
    if es.len() == 0 {
        return;
    }
    let t = step(s, es[0]);
    let rest = es.drop_first();
    assert(invocations(s, es) =~= invocations(t, rest));
    if t.stage == Stage::Done {
        lemma_done_is_final(t, rest);
    } else if t.stage == Stage::UpdateAll {
        lemma_bulk_stage(t, rest);
    } else {
        assert(t == s);
        lemma_bulk_from(t, rest);
    }
}

/// A `remove` command without names on a manifest that declares no
/// dependency fails with `NoDependenciesFound` and invokes nothing.
pub proof fn lemma_empty_manifest_fails(path: Option<Seq<char>>, text: String, es: Seq<Event>)
    requires
        manifest_parses(text@),
        declared_names(text@).len() == 0,
    ensures
        ({
            let s = start(Kind::Remove, path, Seq::empty(), false, None, None);
            let located = step(s, Event::ProjectChecked(true));
            let done = step(located, Event::ManifestText(text));
            &&& located.stage == Stage::ReadManifest
            &&& done.stage == Stage::Done
            &&& done.failure == Some(DepErrorView::NoDependenciesFound)
            &&& invocations(s, seq![Event::ProjectChecked(true), Event::ManifestText(text)] + es).len() == 0
        }),
{
    let s = start(Kind::Remove, path, Seq::empty(), false, None, None);
    let located = step(s, Event::ProjectChecked(true));
    let done = step(located, Event::ManifestText(text));
    let all = seq![Event::ProjectChecked(true), Event::ManifestText(text)] + es;
    lemma_done_is_final(done, es);
    assert(all.drop_first().drop_first() =~= es);
    assert(all[0] == Event::ProjectChecked(true));
    assert(all.drop_first()[0] == Event::ManifestText(text));
    assert(invocations(located, all.drop_first()) =~= invocations(done, es));
    assert(invocations(s, all) =~= invocations(located, all.drop_first()));
}

/// An `add` item with no explicit features and no catalog entry is added by
/// an invocation without any `--features` argument.
pub proof fn lemma_no_unrequested_features(s: SessionView)
    requires
        s.stage == Stage::Items,
        s.kind == Kind::Add,
        s.next < s.names.len(),
        s.features is None,
        catalog(s.names[s.next as int]) is None,
        s.chosen is None,
    ensures
        action_of(s) matches ActionView::Run { args, output, dir } && args == seq![
            "add"@,
            s.names[s.next as int],
        ] + (if s.dev {
            seq!["--dev"@]
        } else {
            Seq::empty()
        }) + match s.version {
            Some(v) => seq!["--version"@, v],
            None => Seq::empty(),
        },
{
    let name = s.names[s.next as int];
    assert(add_invocation(name, s.dev, None, s.version) =~= seq!["add"@, name] + (if s.dev {
        seq!["--dev"@]
    } else {
        Seq::empty()
    }) + match s.version {
        Some(v) => seq!["--version"@, v],
        None => Seq::empty(),
    });
}

/// Every transition keeps a session well formed, and every session starts so.
pub proof fn lemma_step_keeps_well_formed(s: SessionView, e: Event)
    requires
        well_formed(s),
    ensures
        well_formed(step(s, e)),
        well_formed(start(s.kind, None, s.names, s.dev, s.features, s.version)),
{
    if let Event::Chosen(picks) = e {
        assert(picked(s.names, picks@).len() == picks@.len());
    }
}

} // verus!
