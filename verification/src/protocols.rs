use vstd::prelude::*;

verus! {

/// One wire protocol the engine can speak. Protocol selection is by `name`;
/// the remaining fields describe the protocol to a user interface.
#[derive(Debug)]
pub struct Protocol {
    pub name: String,
    pub pretty_name: String,
    pub description: String,
    pub flags: u32,
}

impl Protocol {
    /// Field-by-field copy, fully specified (a derived `Clone` would say
    /// nothing about the result).
    pub fn duplicate(&self) -> (r: Protocol)
        ensures
            r == *self,
    {
        Protocol {
            name: self.name.clone(),
            pretty_name: self.pretty_name.clone(),
            description: self.description.clone(),
            flags: self.flags,
        }
    }
}

/// The protocol used when an entrypoint does not choose one explicitly.
/// Only the `name` drives protocol selection in the engine; the descriptive
/// fields mirror the engine's own table entry for it.
pub fn get_anyconnect_protocol() -> (r: Protocol)
    ensures
        r.name@ == "anyconnect"@,
{
    Protocol {
        name: "anyconnect".to_string(),
        pretty_name: "Cisco AnyConnect or openconnect".to_string(),
        description: "Compatible with Cisco AnyConnect SSL VPN, as well as ocserv".to_string(),
        flags: 0,
    }
}

} // verus!
