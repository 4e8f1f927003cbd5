//! The state of the registry contract and its entry points.

use crate::ids::{is_first, lemma_first_position};
use crate::registry::laws::{lemma_find_in_wf, lemma_register_keeps_wf, lemma_toggle_keeps_wf};
use crate::registry::model::RegistryView;
use crate::registry::record::{flipped, ids, is_active, views, Applet, AppletView};
use vstd::prelude::*;

verus! {

/// The state of the registry contract.
pub struct AppletRegistryState {
    applets: Vec<Applet>,
    next_id: u32,
}

impl View for AppletRegistryState {
    type V = RegistryView;

    closed spec fn view(&self) -> RegistryView {
        RegistryView { applets: views(self.applets@), next_id: self.next_id as nat }
    }
}

impl AppletRegistryState {
    /// The state is one that the entry points can have produced.
    pub open spec fn wf(&self) -> bool {
        self@.wf()
    }

    /// Constructs the empty registry. Construction always succeeds.
    pub fn new() -> (r: Result<Self, String>)
        ensures
            r is Ok,
            r->Ok_0@ == RegistryView::fresh(),
            r->Ok_0.wf(),
    {
        let state = AppletRegistryState { applets: Vec::new(), next_id: 1 };
        assert(state@.applets =~= Seq::<AppletView>::empty());
        Ok(state)
    }

    /// Rebuilds a state from the records and the counter that were stored
    /// for it. The parts are accepted exactly when they are well-formed.
    pub fn from_parts(applets: Vec<Applet>, next_id: u32) -> (r: Option<Self>)
        ensures
            match r {
                Some(state) => state@ == (RegistryView {
                    applets: views(applets@),
                    next_id: next_id as nat,
                }) && state.wf(),
                None => !(RegistryView { applets: views(applets@), next_id: next_id as nat }).wf(),
            },
    {
        let ghost stored = RegistryView { applets: views(applets@), next_id: next_id as nat };
        if next_id == 0 || applets.len() != (next_id - 1) as usize {
            return None;
        }
        let mut i: usize = 0;
        while i < applets.len()
            invariant
                i <= applets.len(),
                applets.len() == next_id - 1,
                stored.applets == views(applets@),
                forall|j: int| 0 <= j < i ==> ids(stored.applets)[j] == j + 1,
            decreases applets.len() - i,
        {
            if applets[i].id as usize != i + 1 {
                assert(ids(stored.applets)[i as int] != i + 1);
                return None;
            }
            i += 1;
        }
        Some(AppletRegistryState { applets, next_id })
    }

    /// Takes the state apart into the records and the counter to store.
    pub fn into_parts(self) -> (r: (Vec<Applet>, u32))
        ensures
            views(r.0@) == self@.applets,
            r.1 == self@.next_id,
    {
        (self.applets, self.next_id)
    }

    /// Get total applet count
    pub fn get_applet_count(&self) -> (n: u32)
        requires
            self.wf(),
        ensures
            n == self@.applets.len(),
    {
        self.applets.len() as u32
    }

    /// Register a new applet
    pub fn register_applet(
        &mut self,
        name: String,
        description: String,
        price: u64,
        input_schema: String,
        output_schema: String,
    ) -> (id: u32)
        requires
            old(self).wf(),
            old(self)@.next_id < u32::MAX,
        ensures
            id == old(self)@.next_id,
            final(self)@ == old(self)@.register(
                name@,
                description@,
                price,
                input_schema@,
                output_schema@,
            ),
            final(self).wf(),
    {
        broadcast use vstd::string::group_string_axioms;

        let applet = Applet {
            id: self.next_id,
            name,
            description,
            price,
            owner: "caller".to_string(),
            input_schema,
            output_schema,
            is_active: true,
        };
        let id = self.next_id;
        self.applets.push(applet);
        self.next_id += 1;
        proof {
            assert(self@.applets =~= old(self)@.applets.push(applet@));
            lemma_register_keeps_wf(
                old(self)@,
                name@,
                description@,
                price,
                input_schema@,
                output_schema@,
            );
        }
        id
    }

    /// Get all active applets
    pub fn get_applets(&self) -> (r: Vec<Applet>)
        ensures
            views(r@) == self@.active(),
    {
        let mut out: Vec<Applet> = Vec::new();
        let mut i: usize = 0;
        assert(self.applets@.take(0) =~= Seq::<Applet>::empty());
        assert(views(out@) =~= Seq::<AppletView>::empty());
        proof {
            reveal(Seq::filter);
        }
        while i < self.applets.len()
            invariant
                i <= self.applets.len(),
                views(out@) == views(self.applets@.take(i as int)).filter(is_active()),
            decreases self.applets.len() - i,
        {
            let ghost before = views(self.applets@.take(i as int));
            let ghost kept = views(out@);
            proof {
                let a = self.applets@[i as int];
                assert(self.applets@.take(i + 1) =~= self.applets@.take(i as int).push(a));
                assert(views(self.applets@.take(i + 1)) =~= before.push(a@));
                before.lemma_filter_push(a@, is_active());
            }
            if self.applets[i].is_active {
                out.push(self.applets[i].clone());
                assert(views(out@) =~= kept.push(self.applets@[i as int]@));
            }
            i += 1;
        }
        assert(self.applets@.take(i as int) =~= self.applets@);
        out
    }

    /// Get applet by ID
    pub fn get_applet_by_id(&self, id: u32) -> (r: Option<Applet>)
        ensures
            match r {
                Some(a) => self@.find(id as nat) == Some(a@),
                None => self@.find(id as nat) is None,
            },
            self.wf() ==> (r is Some <==> 1 <= id < self@.next_id),
    {
        proof {
            if self.wf() {
                lemma_find_in_wf(self@, id as nat);
            }
        }
        let mut i: usize = 0;
        while i < self.applets.len()
            invariant
                i <= self.applets.len(),
                forall|j: int| 0 <= j < i ==> ids(self@.applets)[j] != id,
            decreases self.applets.len() - i,
        {
            if self.applets[i].id == id {
                proof {
                    assert(is_first(ids(self@.applets), id as nat, i as int));
                    lemma_first_position(ids(self@.applets), id as nat);
                }
                return Some(self.applets[i].clone());
            }
            i += 1;
        }
        None
    }

    /// Toggle applet active status
    pub fn toggle_applet_status(&mut self, id: u32)
        ensures
            final(self)@ == old(self)@.toggle(id as nat),
            old(self)@.find(id as nat) is None ==> final(self)@ == old(self)@,
            old(self).wf() ==> final(self).wf(),
    {
        let mut i: usize = 0;
        while i < self.applets.len()
            invariant
                i <= self.applets.len(),
                *self == *old(self),
                forall|j: int| 0 <= j < i ==> ids(self@.applets)[j] != id,
            decreases self.applets.len() - i,
        {
            if self.applets[i].id == id {
                proof {
                    assert(is_first(ids(self@.applets), id as nat, i as int));
                    lemma_first_position(ids(self@.applets), id as nat);
                }
                let flag = self.applets[i].is_active;
                self.applets[i].is_active = !flag;
                proof {
                    assert(self@.applets =~= old(self)@.applets.update(
                        i as int,
                        flipped(old(self)@.applets[i as int]),
                    ));
                    if old(self).wf() {
                        lemma_toggle_keeps_wf(old(self)@, id as nat);
                    }
                }
                return ;
            }
            i += 1;
        }
    }
}

} // verus!
