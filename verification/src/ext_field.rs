//! Extension fields: entity state that only some servers have. A server is asked once whether it has
//! such fields at all, and once for each field; a field it lacks is left alone.
use std::collections::HashMap;
use vstd::prelude::*;

verus! {

/// The extension fields in use.
#[derive(Clone, Copy, PartialEq, Eq, Debug, Structural)]
pub enum ExtField {
    /// Transparency.
    Alpha,
    /// Colour modulation, one factor for each channel.
    ColorMod,
}

impl ExtField {
    /// The number under which a field is remembered.
    pub open spec fn key(self) -> u64 {
        match self {
            ExtField::Alpha => 0,
            ExtField::ColorMod => 1,
        }
    }

    fn number(self) -> (r: u64)
        ensures
            r == self.key(),
    {
        match self {
            ExtField::Alpha => 0,
            ExtField::ColorMod => 1,
        }
    }

    /// The name by which a server knows a field.
    pub fn name(self) -> (r: &'static str)
        ensures
            r@ == match self {
                ExtField::Alpha => "alpha"@,
                ExtField::ColorMod => "colormod"@,
            },
    {
        match self {
            ExtField::Alpha => "alpha",
            ExtField::ColorMod => "colormod",
        }
    }
}

/// The next thing to do to set a field.
#[derive(Clone, Copy, PartialEq, Eq, Debug, Structural)]
pub enum ExtStep {
    /// Ask the server whether it has extension fields.
    Probe,
    /// Ask it for this field.
    Resolve,
    /// Write the value through this reference.
    Write(u32),
    /// There is nothing to write to.
    Skip,
}

/// What a server answered so far.
pub struct ExtFields {
    /// Whether it has extension fields, once that was asked.
    pub supported: Option<bool>,
    /// The reference of each field that was asked for; zero where there is no such field.
    pub refs: HashMap<u64, u32>,
}

impl ExtFields {
    pub fn new() -> (r: ExtFields)
        ensures
            r.supported is None,
            r.refs@ == Map::<u64, u32>::empty(),
    {
        ExtFields { supported: None, refs: HashMap::new() }
    }

    pub open spec fn step(self, field: ExtField) -> ExtStep {
        match self.supported {
            None => ExtStep::Probe,
            Some(false) => ExtStep::Skip,
            Some(true) => if !self.refs@.contains_key(field.key()) {
                ExtStep::Resolve
            } else if self.refs@[field.key()] == 0 {
                ExtStep::Skip
            } else {
                ExtStep::Write(self.refs@[field.key()])
            },
        }
    }

    /// What to do next to set a field.
    pub fn set(&self, field: ExtField) -> (r: ExtStep)
        ensures
            r == self.step(field),
    {
        broadcast use vstd::std_specs::hash::group_hash_axioms;

        match self.supported {
            None => ExtStep::Probe,
            Some(supported) => {
                if !supported {
                    return ExtStep::Skip;
                }
                match self.refs.get(&field.number()) {
                    None => ExtStep::Resolve,
                    Some(r) => if *r == 0 {
                        ExtStep::Skip
                    } else {
                        ExtStep::Write(*r)
                    },
                }
            },
        }
    }

    /// The server says whether it has extension fields.
    pub fn probed(&mut self, supported: bool)
        ensures
            final(self).supported == Some(supported),
            final(self).refs == old(self).refs,
    {
        self.supported = Some(supported);
    }

    /// The server gives the reference of a field.
    pub fn resolved(&mut self, field: ExtField, reference: u32)
        ensures
            final(self).supported == old(self).supported,
            final(self).refs@ == old(self).refs@.insert(field.key(), reference),
    {
        broadcast use vstd::std_specs::hash::group_hash_axioms;

        self.refs.insert(field.number(), reference);
    }
}

/// A server is asked about a field once: with its answers in hand, setting the field writes or skips,
/// and no answer about one field changes what is known of another.
pub proof fn fields_resolve_once(
    before: ExtFields,
    asked: ExtFields,
    after: ExtFields,
    field: ExtField,
    other: ExtField,
    reference: u32,
)
    requires
        asked.supported == Some(true),
        asked.refs == before.refs,
        after.supported == asked.supported,
        after.refs@ == asked.refs@.insert(field.key(), reference),
        other != field,
    ensures
        after.step(field) == if reference == 0 {
            ExtStep::Skip
        } else {
            ExtStep::Write(reference)
        },
        after.step(other) == asked.step(other),
{
}

/// A field is probed for first, then asked for, then written through; where there is none it is skipped.
pub proof fn fields_are_asked_for_in_order(f: ExtFields, field: ExtField)
    ensures
        f.step(field) == ExtStep::Probe <==> f.supported is None,
        f.supported == Some(false) ==> f.step(field) == ExtStep::Skip,
        f.supported == Some(true) && !f.refs@.contains_key(field.key()) <==> f.step(field) == ExtStep::Resolve,
        f.supported == Some(true) && f.refs@.contains_key(field.key()) && f.refs@[field.key()] == 0 ==> f.step(field)
            == ExtStep::Skip,
        f.supported == Some(true) && f.refs@.contains_key(field.key()) && f.refs@[field.key()] != 0 ==> f.step(field)
            == ExtStep::Write(f.refs@[field.key()]),
        ExtField::Alpha.key() != ExtField::ColorMod.key(),
{
}

} // verus!
