//! The registry contract as a host sees it: one instance, reached through
//! tagged calls.

use crate::lifecycle::{Category, Phase};
use crate::registry::model::RegistryView;
use crate::registry::record::{views, Applet};
use crate::registry::state::AppletRegistryState;
use vstd::pervasive::unreached;
use vstd::prelude::*;

verus! {

/// One call on the registry contract: the entry point and its arguments.
pub enum RegistryCall {
    New,
    GetApplets,
    GetAppletById { id: u32 },
    GetAppletCount,
    RegisterApplet {
        name: String,
        description: String,
        price: u64,
        input_schema: String,
        output_schema: String,
    },
    ToggleAppletStatus { id: u32 },
}

impl RegistryCall {
    /// The kind of the entry point that the call names.
    pub open spec fn spec_category(&self) -> Category {
        match self {
            RegistryCall::New => Category::Constructor,
            RegistryCall::GetApplets
            | RegistryCall::GetAppletById { .. }
            | RegistryCall::GetAppletCount => Category::Query,
            RegistryCall::RegisterApplet { .. }
            | RegistryCall::ToggleAppletStatus { .. } => Category::Mutate,
        }
    }

    /// The kind of the entry point that the call names.
    #[verifier::when_used_as_spec(spec_category)]
    pub fn category(&self) -> (c: Category)
        ensures
            c == self.spec_category(),
    {
        match self {
            RegistryCall::New => Category::Constructor,
            RegistryCall::GetApplets => Category::Query,
            RegistryCall::GetAppletById { .. } => Category::Query,
            RegistryCall::GetAppletCount => Category::Query,
            RegistryCall::RegisterApplet { .. } => Category::Mutate,
            RegistryCall::ToggleAppletStatus { .. } => Category::Mutate,
        }
    }
}

/// What a call on the registry contract hands back to the host.
pub enum RegistryReply {
    Constructed,
    ConstructionFailed(String),
    Applets(Vec<Applet>),
    Applet(Option<Applet>),
    Count(u32),
    Registered(u32),
    Toggled,
}

/// One instance of the registry contract.
pub enum RegistryContract {
    Uninitialized,
    Ready(AppletRegistryState),
    Failed,
}

impl RegistryContract {
    /// The phase that the instance is in.
    pub open spec fn spec_phase(&self) -> Phase {
        match self {
            RegistryContract::Uninitialized => Phase::Uninitialized,
            RegistryContract::Ready(_) => Phase::Ready,
            RegistryContract::Failed => Phase::Failed,
        }
    }

    /// The state of a ready instance.
    pub open spec fn state(&self) -> RegistryView
        recommends
            self is Ready,
    {
        self->Ready_0@
    }

    /// The state of a ready instance is well-formed.
    pub open spec fn wf(&self) -> bool {
        self is Ready ==> self->Ready_0.wf()
    }

    /// The call may be made on the instance: its phase admits the kind of
    /// the call, and a registration still finds an identifier to hand out.
    pub open spec fn admits(&self, call: &RegistryCall) -> bool {
        &&& self.spec_phase().admits(call.spec_category())
        &&& call is RegisterApplet ==> self.state().next_id < u32::MAX
    }

    /// The phase that the instance is in.
    #[verifier::when_used_as_spec(spec_phase)]
    pub fn phase(&self) -> (p: Phase)
        ensures
            p == self.spec_phase(),
    {
        match self {
            RegistryContract::Uninitialized => Phase::Uninitialized,
            RegistryContract::Ready(_) => Phase::Ready,
            RegistryContract::Failed => Phase::Failed,
        }
    }

    /// Decides whether the call may be made on the instance.
    pub fn can_dispatch(&self, call: &RegistryCall) -> (r: bool)
        requires
            self.wf(),
        ensures
            r == self.admits(call),
    {
        match self {
            RegistryContract::Ready(state) => match call {
                RegistryCall::New => false,
                RegistryCall::RegisterApplet { .. } => state.get_applet_count() < u32::MAX - 1,
                _ => true,
            },
            RegistryContract::Uninitialized => match call {
                RegistryCall::New => true,
                _ => false,
            },
            RegistryContract::Failed => false,
        }
    }

    /// Runs one admitted call. A constructor makes the instance ready with
    /// the fresh registry, a query answers from the state and leaves it as
    /// it is, and a mutation answers and leaves the state that the model
    /// gives for it.
    pub fn dispatch(&mut self, call: RegistryCall) -> (reply: RegistryReply)
        requires
            old(self).wf(),
            old(self).admits(&call),
        ensures
            final(self).wf(),
            final(self).spec_phase() == old(self).spec_phase().after(call.spec_category(), true),
            call.spec_category() == Category::Query ==> *final(self) == *old(self),
            match call {
                RegistryCall::New => {
                    &&& reply is Constructed
                    &&& final(self).state() == RegistryView::fresh()
                },
                RegistryCall::GetApplets => {
                    &&& reply matches RegistryReply::Applets(applets)
                    &&& views(applets@) == old(self).state().active()
                },
                RegistryCall::GetAppletById { id } => {
                    &&& reply matches RegistryReply::Applet(found)
                    &&& match found {
                        Some(a) => old(self).state().find(id as nat) == Some(a@),
                        None => old(self).state().find(id as nat) is None,
                    }
                },
                RegistryCall::GetAppletCount => {
                    &&& reply matches RegistryReply::Count(n)
                    &&& n == old(self).state().applets.len()
                },
                RegistryCall::RegisterApplet {
                    name,
                    description,
                    price,
                    input_schema,
                    output_schema,
                } => {
                    &&& reply matches RegistryReply::Registered(id)
                    &&& id == old(self).state().next_id
                    &&& final(self).state() == old(self).state().register(
                        name@,
                        description@,
                        price,
                        input_schema@,
                        output_schema@,
                    )
                },
                RegistryCall::ToggleAppletStatus { id } => {
                    &&& reply is Toggled
                    &&& final(self).state() == old(self).state().toggle(id as nat)
                },
            },
    {
        match self {
            RegistryContract::Ready(state) => match call {
                RegistryCall::New => unreached(),
                RegistryCall::GetApplets => RegistryReply::Applets(state.get_applets()),
                RegistryCall::GetAppletById { id } => RegistryReply::Applet(
                    state.get_applet_by_id(id),
                ),
                RegistryCall::GetAppletCount => RegistryReply::Count(state.get_applet_count()),
                RegistryCall::RegisterApplet {
                    name,
                    description,
                    price,
                    input_schema,
                    output_schema,
                } => RegistryReply::Registered(
                    state.register_applet(name, description, price, input_schema, output_schema),
                ),
                RegistryCall::ToggleAppletStatus { id } => {
                    state.toggle_applet_status(id);
                    RegistryReply::Toggled
                },
            },
            _ => match AppletRegistryState::new() {
                Ok(state) => {
                    *self = RegistryContract::Ready(state);
                    RegistryReply::Constructed
                },
                Err(message) => {
                    *self = RegistryContract::Failed;
                    RegistryReply::ConstructionFailed(message)
                },
            },
        }
    }
}

} // verus!
