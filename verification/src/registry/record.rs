//! Applet records and what they say as plain values.

use vstd::prelude::*;

verus! {

/// The owner written into every record until the host supplies the caller.
pub open spec fn placeholder_owner() -> Seq<char> {
    "caller"@
}

/// One registered applet.
pub struct Applet {
    pub id: u32,
    pub name: String,
    pub description: String,
    pub price: u64,
    pub owner: String,
    pub input_schema: String,
    pub output_schema: String,
    pub is_active: bool,
}

/// What an applet record says, as plain mathematical values.
pub struct AppletView {
    pub id: nat,
    pub name: Seq<char>,
    pub description: Seq<char>,
    pub price: u64,
    pub owner: Seq<char>,
    pub input_schema: Seq<char>,
    pub output_schema: Seq<char>,
    pub is_active: bool,
}

impl View for Applet {
    type V = AppletView;

    open spec fn view(&self) -> AppletView {
        AppletView {
            id: self.id as nat,
            name: self.name@,
            description: self.description@,
            price: self.price,
            owner: self.owner@,
            input_schema: self.input_schema@,
            output_schema: self.output_schema@,
            is_active: self.is_active,
        }
    }
}

impl Clone for Applet {
    fn clone(&self) -> (res: Self)
        ensures
            res == *self,
    {
        Applet {
            id: self.id,
            name: self.name.clone(),
            description: self.description.clone(),
            price: self.price,
            owner: self.owner.clone(),
            input_schema: self.input_schema.clone(),
            output_schema: self.output_schema.clone(),
            is_active: self.is_active,
        }
    }
}

/// The views of a sequence of records, in the same order.
pub open spec fn views(records: Seq<Applet>) -> Seq<AppletView> {
    records.map_values(|a: Applet| a@)
}

/// The predicate that keeps the active records.
pub open spec fn is_active() -> spec_fn(AppletView) -> bool {
    |a: AppletView| a.is_active
}

/// The identifier that a record carries.
pub open spec fn id_of() -> spec_fn(AppletView) -> nat {
    |a: AppletView| a.id
}

/// The identifiers that the records carry, in the same order.
pub open spec fn ids(records: Seq<AppletView>) -> Seq<nat> {
    records.map_values(id_of())
}

/// The record with its activity flag flipped and nothing else changed.
pub open spec fn flipped(a: AppletView) -> AppletView {
    AppletView { is_active: !a.is_active, ..a }
}

} // verus!
