//! Modules of a process and the closed address ranges they occupy.

use vstd::prelude::*;

verus! {

/// A loaded module as the backend reports it: where it starts and how many
/// bytes it spans.
#[derive(Clone, Copy, Debug, PartialEq, Eq, Structural)]
pub struct Module {
    pub base: u64,
    pub size: u64,
}

/// A closed interval of addresses: both `start` and `end` belong to it.
#[derive(Clone, Copy, Debug, PartialEq, Eq, Structural)]
pub struct AddressRange {
    pub start: u64,
    pub end: u64,
}

impl Module {
    /// `address` lies between `base` and `base + size`, both included. The sum
    /// is taken over the integers, so a module that reaches the top of the
    /// address space covers every address from its base upwards.
    pub open spec fn covers(self, address: u64) -> bool {
        self.base <= address <= self.base + self.size
    }

    /// The range a module occupies. Its end is `base + size`, held at the
    /// highest address where the sum would pass it.
    pub open spec fn spec_range(self) -> AddressRange {
        AddressRange {
            start: self.base,
            end: if self.base + self.size <= u64::MAX {
                (self.base + self.size) as u64
            } else {
                u64::MAX
            },
        }
    }

    /// Computes the range this module occupies.
    #[verifier::when_used_as_spec(spec_range)]
    pub fn range(self) -> (r: AddressRange)
        ensures
            r == self.spec_range(),
            forall|address: u64| r.contains(address) == self.covers(address),
    {
        AddressRange { start: self.base, end: self.base.saturating_add(self.size) }
    }
}

impl AddressRange {
    /// `address` lies between `start` and `end`, both included.
    pub open spec fn contains(self, address: u64) -> bool {
        self.start <= address <= self.end
    }

    /// Tests whether `address` lies in this range.
    pub fn includes(&self, address: u64) -> (b: bool)
        ensures
            b == self.contains(address),
    {
        self.start <= address && address <= self.end
    }
}

/// At least one of `modules` covers `address`.
pub open spec fn modules_cover(modules: Seq<Module>, address: u64) -> bool {
    exists|i: int| 0 <= i < modules.len() && #[trigger] modules[i].covers(address)
}

/// At least one of `ranges` contains `address`.
pub open spec fn ranges_contain(ranges: Seq<AddressRange>, address: u64) -> bool {
    exists|i: int| 0 <= i < ranges.len() && #[trigger] ranges[i].contains(address)
}

/// The ranges of `modules`, one for each module and in the same order.
pub open spec fn ranges_of(modules: Seq<Module>) -> Seq<AddressRange> {
    Seq::new(modules.len(), |i: int| modules[i].spec_range())
}

/// Holding the end of a range at the highest address loses nothing: a module's
/// range contains exactly the addresses the module covers.
pub proof fn lemma_range_matches_module(module: Module, address: u64)
    ensures
        module.spec_range().contains(address) == module.covers(address),
{
}

/// The ranges of a module list contain exactly the addresses that one of the
/// modules covers.
pub proof fn lemma_ranges_match_modules(modules: Seq<Module>, address: u64)
    ensures
        ranges_contain(ranges_of(modules), address) == modules_cover(modules, address),
{
    let ranges = ranges_of(modules);
    if modules_cover(modules, address) {
        let i = choose|i: int| 0 <= i < modules.len() && #[trigger] modules[i].covers(address);
        assert(ranges[i].contains(address));
    }
    if ranges_contain(ranges, address) {
        let i = choose|i: int| 0 <= i < ranges.len() && #[trigger] ranges[i].contains(address);
        assert(modules[i].covers(address));
    }
}

/// Both ends of a module belong to it and the address after its last one does
/// not: `base` and `base + size` are covered, `base + size + 1` is not.
pub proof fn lemma_module_bounds_inclusive(module: Module)
    requires
        module.base + module.size < u64::MAX,
    ensures
        module.covers(module.base),
        module.covers((module.base + module.size) as u64),
        !module.covers((module.base + module.size + 1) as u64),
        module.base > 0 ==> !module.covers((module.base - 1) as u64),
{
}

/// Turns a module list into the list of ranges the modules occupy.
pub fn ranges_from_modules(modules: &Vec<Module>) -> (ranges: Vec<AddressRange>)
    ensures
        ranges@ == ranges_of(modules@),
{
    let mut ranges: Vec<AddressRange> = Vec::new();
    let mut i: usize = 0;
    while i < modules.len()
        invariant
            i <= modules.len(),
            ranges.len() == i,
            forall|j: int| 0 <= j < i ==> ranges[j] == modules[j].spec_range(),
        decreases modules.len() - i,
    {
        ranges.push(modules[i].range());
        i += 1;
    }
    assert(ranges@ =~= ranges_of(modules@));
    ranges
}

/// Tests whether `address` lies in at least one of `ranges`.
pub fn any_range_includes(ranges: &Vec<AddressRange>, address: u64) -> (b: bool)
    ensures
        b == ranges_contain(ranges@, address),
{
    let mut i: usize = 0;
    while i < ranges.len()
        invariant
            i <= ranges.len(),
            forall|j: int| 0 <= j < i ==> !ranges[j].contains(address),
        decreases ranges.len() - i,
    {
        if ranges[i].includes(address) {
            return true;
        }
        i += 1;
    }
    false
}

} // verus!
