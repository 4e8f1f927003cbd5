//! What holds of the registry whatever calls are made on it.

use crate::ids::{
    counts_from_one, first_position, increasing, lemma_counting_increases,
    lemma_filter_keeps_order, lemma_first_position, lemma_position_when_counting,
};
use crate::registry::model::{is_registration, issued, RegistryCommand, RegistryView};
use crate::registry::record::{flipped, id_of, ids, is_active, AppletView};
use vstd::prelude::*;

verus! {

/// A registration keeps a well-formed registry well-formed.
pub proof fn lemma_register_keeps_wf(
    v: RegistryView,
    name: Seq<char>,
    description: Seq<char>,
    price: u64,
    input_schema: Seq<char>,
    output_schema: Seq<char>,
)
    requires
        v.wf(),
    ensures
        v.register(name, description, price, input_schema, output_schema).wf(),
{
    let after = v.register(name, description, price, input_schema, output_schema);
    assert forall|i: int| 0 <= i < ids(after.applets).len() implies ids(after.applets)[i] == i
        + 1 by {
        if i < v.applets.len() {
            assert(ids(v.applets)[i] == i + 1);
        }
    }
}

/// A toggle changes no identifier, so it keeps a well-formed registry
/// well-formed.
pub proof fn lemma_toggle_keeps_wf(v: RegistryView, id: nat)
    requires
        v.wf(),
    ensures
        v.toggle(id).wf(),
        ids(v.toggle(id).applets) == ids(v.applets),
{
    lemma_first_position(ids(v.applets), id);
    assert(ids(v.toggle(id).applets) =~= ids(v.applets));
}

/// One state-changing call never removes or reorders a record, never
/// changes an identifier or any field but the activity flag, and never
/// lowers the next identifier.
pub proof fn lemma_step_keeps_records(v: RegistryView, command: RegistryCommand)
    ensures
        v.apply(command).next_id >= v.next_id,
        v.apply(command).applets.len() >= v.applets.len(),
        forall|i: int|
            0 <= i < v.applets.len() ==> {
                ||| #[trigger] v.apply(command).applets[i] == v.applets[i]
                ||| v.apply(command).applets[i] == flipped(v.applets[i])
            },
{
    if let RegistryCommand::Toggle { id } = command {
        lemma_first_position(ids(v.applets), id);
    }
}

/// Whatever calls were made on a fresh registry, its state is well-formed,
/// and its records carry the identifiers that were handed out, in order.
pub proof fn lemma_reachable(commands: Seq<RegistryCommand>)
    ensures
        RegistryView::fresh().run(commands).wf(),
        ids(RegistryView::fresh().run(commands).applets) == issued(commands),
    decreases commands.len(),
{
    let fresh = RegistryView::fresh();
    if commands.len() == 0 {
        assert(ids(fresh.applets) =~= issued(commands));
    } else {
        let earlier = commands.drop_last();
        let before = fresh.run(earlier);
        lemma_reachable(earlier);
        match commands.last() {
            RegistryCommand::Register { name, description, price, input_schema, output_schema } => {
                lemma_register_keeps_wf(
                    before,
                    name,
                    description,
                    price,
                    input_schema,
                    output_schema,
                );
                assert(ids(before.apply(commands.last()).applets) =~= ids(before.applets).push(
                    before.next_id,
                ));
            },
            RegistryCommand::Toggle { id } => {
                lemma_toggle_keeps_wf(before, id);
            },
        }
    }
}

/// Identifiers are handed out as 1, 2, 3, ...: each registration returns
/// one more than the registration before it, the first returns one, and so
/// none is skipped or handed out twice.
pub proof fn lemma_ids_count_from_one(commands: Seq<RegistryCommand>)
    ensures
        counts_from_one(issued(commands)),
        forall|i: int, j: int|
            0 <= i < j < issued(commands).len() ==> issued(commands)[i] < issued(commands)[j],
{
    lemma_reachable(commands);
}

/// The number of records equals the number of registrations made so far.
pub proof fn lemma_count_is_registrations(commands: Seq<RegistryCommand>)
    ensures
        RegistryView::fresh().run(commands).applets.len() == commands.filter(
            is_registration(),
        ).len(),
        RegistryView::fresh().run(commands).applets.len() == issued(commands).len(),
    decreases commands.len(),
{
    reveal(Seq::filter);
    if commands.len() > 0 {
        lemma_count_is_registrations(commands.drop_last());
        lemma_step_keeps_records(RegistryView::fresh().run(commands.drop_last()), commands.last());
        if let RegistryCommand::Toggle { id } = commands.last() {
            lemma_first_position(ids(RegistryView::fresh().run(commands.drop_last()).applets), id);
        }
    }
}

/// A lookup finds a record exactly for the identifiers that a registration
/// has returned.
pub proof fn lemma_found_iff_issued(commands: Seq<RegistryCommand>, id: nat)
    ensures
        RegistryView::fresh().run(commands).find(id) is Some <==> issued(commands).contains(id),
{
    lemma_reachable(commands);
}

/// In a well-formed registry the identifiers in use are those from one up
/// to the next identifier, and the record with identifier `id` stands at
/// position `id - 1`.
pub proof fn lemma_find_in_wf(v: RegistryView, id: nat)
    requires
        v.wf(),
    ensures
        v.find(id) is Some <==> 1 <= id < v.next_id,
        v.find(id) is Some ==> v.find(id) == Some(v.applets[id - 1]) && v.applets[id - 1].id == id,
{
    lemma_position_when_counting(ids(v.applets), id);
    if 1 <= id < v.next_id {
        assert(ids(v.applets)[id - 1] == id);
    }
}

/// Every record among the active ones is active and is a record of the
/// registry, and every active record of the registry is among them.
pub proof fn lemma_active_exact(v: RegistryView)
    ensures
        forall|i: int| 0 <= i < v.active().len() ==> (#[trigger] v.active()[i]).is_active,
        forall|a: AppletView| #[trigger]
            v.active().contains(a) <==> v.applets.contains(a) && a.is_active,
{
    let active = v.active();
    assert forall|i: int| 0 <= i < active.len() implies (#[trigger] active[i]).is_active by {
        v.applets.lemma_filter_pred(is_active(), i);
    }
    assert forall|a: AppletView| #[trigger] active.contains(a) <==> v.applets.contains(a)
        && a.is_active by {
        if active.contains(a) {
            v.applets.lemma_filter_contains_rev(is_active(), a);
            let i = choose|i: int| 0 <= i < active.len() && active[i] == a;
            assert(active[i].is_active);
        }
        if v.applets.contains(a) && a.is_active {
            let i = choose|i: int| 0 <= i < v.applets.len() && v.applets[i] == a;
            v.applets.lemma_filter_contains(is_active(), i);
        }
    }
}

/// The active records stand in the order in which they were registered:
/// their identifiers increase.
pub proof fn lemma_active_in_order(v: RegistryView)
    requires
        v.wf(),
    ensures
        increasing(ids(v.active())),
{
    lemma_counting_increases(ids(v.applets));
    lemma_filter_keeps_order(v.applets, is_active(), id_of());
}

/// After a toggle on an active applet no active record carries its
/// identifier any more, and the other records are active as before.
pub proof fn lemma_toggle_hides(v: RegistryView, id: nat)
    requires
        v.wf(),
        v.find(id) is Some,
        v.find(id)->Some_0.is_active,
    ensures
        !ids(v.toggle(id).active()).contains(id),
        forall|a: AppletView|
            a.id != id ==> (#[trigger] v.toggle(id).active().contains(a) <==> v.active().contains(
                a,
            )),
{
    let after = v.toggle(id);
    let pos = id - 1;
    lemma_find_in_wf(v, id);
    lemma_position_when_counting(ids(v.applets), id);
    lemma_toggle_keeps_wf(v, id);
    lemma_active_exact(v);
    lemma_active_exact(after);
    assert(after.applets == v.applets.update(pos, flipped(v.applets[pos])));
    if ids(after.active()).contains(id) {
        let k = choose|k: int| 0 <= k < ids(after.active()).len() && ids(after.active())[k] == id;
        let a = after.active()[k];
        assert(after.active().contains(a));
        let i = choose|i: int| 0 <= i < after.applets.len() && after.applets[i] == a;
        assert(ids(after.applets)[i] == i + 1);
        assert(i == pos);
        assert(false);
    }
    assert forall|a: AppletView| a.id != id implies (#[trigger] after.active().contains(a)
        <==> v.active().contains(a)) by {
        if after.applets.contains(a) {
            let i = choose|i: int| 0 <= i < after.applets.len() && after.applets[i] == a;
            assert(ids(after.applets)[i] == i + 1);
            assert(v.applets[i] == a);
        }
        if v.applets.contains(a) {
            let i = choose|i: int| 0 <= i < v.applets.len() && v.applets[i] == a;
            assert(ids(v.applets)[i] == i + 1);
            assert(after.applets[i] == a);
        }
    }
}

/// Two toggles on the same identifier give back the registry as it was,
/// and with it the same active records.
pub proof fn lemma_toggle_twice(v: RegistryView, id: nat)
    ensures
        v.toggle(id).toggle(id) == v,
        v.toggle(id).toggle(id).active() == v.active(),
{
    lemma_first_position(ids(v.applets), id);
    if ids(v.applets).contains(id) {
        let i = first_position(ids(v.applets), id);
        let once = v.toggle(id);
        assert(ids(once.applets) =~= ids(v.applets));
        assert(once.toggle(id).applets =~= v.applets);
    }
}

/// A toggle on an identifier that no record carries changes nothing.
pub proof fn lemma_toggle_unknown(v: RegistryView, id: nat)
    requires
        v.find(id) is None,
    ensures
        v.toggle(id) == v,
{
}

} // verus!
