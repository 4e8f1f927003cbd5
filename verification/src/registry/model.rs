//! The registry as a mathematical value, and what each state-changing call
//! makes of it.

use crate::ids::{counts_from_one, first_position};
use crate::registry::record::{flipped, ids, is_active, placeholder_owner, AppletView};
use vstd::prelude::*;

verus! {

/// The registry as a mathematical value: the records in registration order
/// and the identifier that the next registration will receive.
pub struct RegistryView {
    pub applets: Seq<AppletView>,
    pub next_id: nat,
}

impl RegistryView {
    /// The registry right after construction.
    pub open spec fn fresh() -> RegistryView {
        RegistryView { applets: Seq::empty(), next_id: 1 }
    }

    /// The record at position `i` carries the identifier `i + 1`, and the
    /// next identifier is one more than the last one handed out.
    pub open spec fn wf(self) -> bool {
        &&& self.next_id == self.applets.len() + 1
        &&& counts_from_one(ids(self.applets))
    }

    /// The first record that carries `id`, if there is one.
    pub open spec fn find(self, id: nat) -> Option<AppletView> {
        if ids(self.applets).contains(id) {
            Some(self.applets[first_position(ids(self.applets), id)])
        } else {
            None
        }
    }

    /// The active records, in registration order.
    pub open spec fn active(self) -> Seq<AppletView> {
        self.applets.filter(is_active())
    }

    /// The registry after one registration: a new active record with the
    /// next identifier and the placeholder owner is appended.
    pub open spec fn register(
        self,
        name: Seq<char>,
        description: Seq<char>,
        price: u64,
        input_schema: Seq<char>,
        output_schema: Seq<char>,
    ) -> RegistryView {
        RegistryView {
            applets: self.applets.push(
                AppletView {
                    id: self.next_id,
                    name,
                    description,
                    price,
                    owner: placeholder_owner(),
                    input_schema,
                    output_schema,
                    is_active: true,
                },
            ),
            next_id: self.next_id + 1,
        }
    }

    /// The registry after a toggle: the first record that carries `id` has
    /// its flag flipped; without such a record nothing changes.
    pub open spec fn toggle(self, id: nat) -> RegistryView {
        if ids(self.applets).contains(id) {
            let i = first_position(ids(self.applets), id);
            RegistryView { applets: self.applets.update(i, flipped(self.applets[i])), ..self }
        } else {
            self
        }
    }
}

/// A state-changing call on the registry, with its arguments as plain
/// values.
pub enum RegistryCommand {
    Register {
        name: Seq<char>,
        description: Seq<char>,
        price: u64,
        input_schema: Seq<char>,
        output_schema: Seq<char>,
    },
    Toggle { id: nat },
}

/// The predicate that keeps the registrations among commands.
pub open spec fn is_registration() -> spec_fn(RegistryCommand) -> bool {
    |c: RegistryCommand| c is Register
}

impl RegistryView {
    /// The registry after one state-changing call.
    pub open spec fn apply(self, command: RegistryCommand) -> RegistryView {
        match command {
            RegistryCommand::Register { name, description, price, input_schema, output_schema } => {
                self.register(name, description, price, input_schema, output_schema)
            },
            RegistryCommand::Toggle { id } => self.toggle(id),
        }
    }

    /// The registry after the calls of `commands`, made in this order.
    pub open spec fn run(self, commands: Seq<RegistryCommand>) -> RegistryView
        decreases commands.len(),
    {
        if commands.len() == 0 {
            self
        } else {
            self.run(commands.drop_last()).apply(commands.last())
        }
    }
}

/// The identifiers that the registrations among `commands` return, in the
/// order of the calls, when the calls start on a fresh registry.
pub open spec fn issued(commands: Seq<RegistryCommand>) -> Seq<nat>
    decreases commands.len(),
{
    if commands.len() == 0 {
        Seq::empty()
    } else {
        let earlier = commands.drop_last();
        if commands.last() is Register {
            issued(earlier).push(RegistryView::fresh().run(earlier).next_id)
        } else {
            issued(earlier)
        }
    }
}

} // verus!
