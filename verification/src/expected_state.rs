use vstd::prelude::*;

use crate::attribute::Attribute;

verus! {

/// Whether a host is assessed attribute by attribute in declaration order,
/// or with one independent worker per attribute.
#[derive(Debug, Clone, Copy, PartialEq, Eq, Structural)]
pub enum DryRunMode {
    Sequential,
    Parallel,
}

/// The ordered list of attributes a host is expected to satisfy. Order is
/// semantically significant: remediations execute in declaration order.
#[derive(Debug, Clone)]
pub struct ExpectedState {
    pub attributes: Vec<Attribute>,
}

impl ExpectedState {
    pub fn new() -> (r: ExpectedState)
        ensures
            r.attributes@ == Seq::<Attribute>::empty(),
    {
        ExpectedState { attributes: Vec::new() }
    }

    /// Appends one attribute, keeping declaration order.
    pub fn with_attribute(self, attribute: Attribute) -> (r: ExpectedState)
        ensures
            r.attributes@ == self.attributes@.push(attribute),
    {
        let mut attributes = self.attributes;
        attributes.push(attribute);
        ExpectedState { attributes }
    }

    /// A copy of the declared state, attribute for attribute.
    pub fn build(&self) -> (r: ExpectedState)
        ensures
            r.attributes@ == self.attributes@,
    {
        self.duplicate()
    }

    /// An attribute-wise copy with the same contents as `self`.
    pub fn duplicate(&self) -> (r: ExpectedState)
        ensures
            r.attributes@ == self.attributes@,
    {
        let mut attributes: Vec<Attribute> = Vec::new();
        let n = self.attributes.len();
        let mut i: usize = 0;
        while i < n
            invariant
                0 <= i <= n,
                n == self.attributes@.len(),
                attributes@ == self.attributes@.subrange(0, i as int),
            decreases n - i,
        {
            attributes.push(self.attributes[i].duplicate());
            proof {
                assert(attributes@ =~= self.attributes@.subrange(0, i as int + 1));
            }
            i = i + 1;
        }
        proof {
            assert(attributes@ =~= self.attributes@);
        }
        ExpectedState { attributes }
    }
}

} // verus!
