//! Identification: globally unique numeric identities and source-level symbols.

use vstd::prelude::*;
use vstd::std_specs::cmp::PartialEqSpecImpl;
use vstd::std_specs::convert::FromSpecImpl;

verus! {

/// Hands out identities. Every identity it hands out is the value of its
/// counter at the time of the call; the counter then moves up by one. At
/// the top of the range the counter stays where it is and the allocator
/// records that it is exhausted.
pub struct IdAllocator {
    next: u64,
    exhausted: bool,
}

impl IdAllocator {
    /// The identity that the next allocation returns.
    pub closed spec fn spec_next(&self) -> u64 {
        self.next
    }

    /// Whether an allocation was made when no unused identity was left.
    pub closed spec fn spec_exhausted(&self) -> bool {
        self.exhausted
    }

    /// The state of an allocator right after one allocation from `before`.
    pub open spec fn follows(&self, before: IdAllocator) -> bool {
        &&& self.spec_next() == (if before.spec_next() < u64::MAX {
            (before.spec_next() + 1) as u64
        } else {
            u64::MAX
        })
        &&& self.spec_exhausted() == (before.spec_exhausted() || before.spec_next() == u64::MAX)
    }

    /// The counter and the record of exhaustion after `k` allocations.
    pub open spec fn spec_after(next: u64, exhausted: bool, k: nat) -> (u64, bool)
        decreases k,
    {
        if k == 0 {
            (next, exhausted)
        } else {
            let (n, e) = Self::spec_after(next, exhausted, (k - 1) as nat);
            (
                if n < u64::MAX {
                    (n + 1) as u64
                } else {
                    u64::MAX
                },
                e || n == u64::MAX,
            )
        }
    }

    /// The state of an allocator right after `k` allocations from `before`.
    pub open spec fn is_after(&self, before: IdAllocator, k: nat) -> bool {
        (self.spec_next(), self.spec_exhausted()) == Self::spec_after(
            before.spec_next(),
            before.spec_exhausted(),
            k,
        )
    }

    /// The state of an allocator after any number of allocations from
    /// `before`: the counter never moves down, and exhaustion is never
    /// forgotten.
    pub open spec fn advanced_from(&self, before: IdAllocator) -> bool {
        &&& before.spec_next() <= self.spec_next()
        &&& before.spec_exhausted() ==> self.spec_exhausted()
    }

    /// An allocator that has handed out nothing yet: its first identity is
    /// zero.
    pub fn new() -> (alloc: IdAllocator)
        ensures
            alloc.spec_next() == 0,
            !alloc.spec_exhausted(),
    {
        IdAllocator { next: 0, exhausted: false }
    }

    /// The identity that the next allocation returns.
    #[verifier::when_used_as_spec(spec_next)]
    pub fn next(&self) -> (n: u64)
        ensures
            n == self.spec_next(),
    {
        self.next
    }

    /// Whether an allocation was made when no unused identity was left.
    #[verifier::when_used_as_spec(spec_exhausted)]
    pub fn exhausted(&self) -> (b: bool)
        ensures
            b == self.spec_exhausted(),
    {
        self.exhausted
    }

    /// Hand out the next identity.
    pub fn allocate(&mut self) -> (id: u64)
        ensures
            id == old(self).spec_next(),
            final(self).follows(*old(self)),
    {
        let id: u64 = self.next;
        if self.next < u64::MAX {
            self.next = self.next + 1;
        } else {
            self.exhausted = true;
        }
        id
    }
}

/// The `Id` trait is implemented by nodes that can provide a numerical id.
pub trait Id {
    spec fn spec_id(&self) -> u64;

    fn id(&self) -> (id: u64)
        ensures
            id == self.spec_id(),
    ;
}

/// The `Name` trait is implemented by nodes that can provide a human-readable
/// name. This name does not have to be globally unique.
pub trait Name {
    spec fn spec_name(&self) -> Seq<char>;

    fn name(&self) -> (name: String)
        ensures
            name@ == self.spec_name(),
    ;
}

/// The `Identify` trait is implemented by nodes that can provide an
/// `Identifier`.
pub trait Identify {
    spec fn spec_identify(&self) -> IdentifierView;

    fn identify(&self) -> (identifier: Identifier)
        ensures
            identifier@ == self.spec_identify(),
    ;
}

/// The `Symbolise` trait is implemented by nodes that can provide a `Symbol`.
pub trait Symbolise {
    spec fn spec_symbolise(&self) -> IdentifierView;

    fn symbolise(&self) -> (symbol: Symbol)
        ensures
            symbol@ == self.spec_symbolise(),
    ;
}

/// What an `Identifier` stands for: its number and its display name.
pub ghost struct IdentifierView {
    pub id: u64,
    pub name: Seq<char>,
}

/// All components that require identification use the `Identifier` struct.
/// The empty string is a valid name. Two identifiers are equal when their
/// numbers are equal; the name is not compared.
#[derive(Debug)]
pub struct Identifier {
    pub id: u64,
    pub name: String,
}

impl View for Identifier {
    type V = IdentifierView;

    open spec fn view(&self) -> IdentifierView {
        IdentifierView { id: self.id, name: self.name@ }
    }
}

impl Clone for Identifier {
    fn clone(&self) -> (res: Identifier)
        ensures
            res == *self,
    {
        Identifier { id: self.id, name: self.name.clone() }
    }
}

impl Identifier {
    /// Build a new `Identifier` without a name. Its number is the next
    /// identity of the allocator.
    pub fn id(alloc: &mut IdAllocator) -> (identifier: Identifier)
        ensures
            identifier@ == (IdentifierView { id: old(alloc).spec_next(), name: Seq::<char>::empty() }),
            final(alloc).follows(*old(alloc)),
    {
        Identifier { id: alloc.allocate(), name: String::new() }
    }

    /// Build a new `Identifier` with a name. Its number is the next identity
    /// of the allocator.
    pub fn name(alloc: &mut IdAllocator, name: &str) -> (identifier: Identifier)
        ensures
            identifier@ == (IdentifierView { id: old(alloc).spec_next(), name: name@ }),
            final(alloc).follows(*old(alloc)),
    {
        Identifier { id: alloc.allocate(), name: name.to_owned() }
    }
}

impl Id for Identifier {
    open spec fn spec_id(&self) -> u64 {
        self.id
    }

    fn id(&self) -> (id: u64) {
        self.id
    }
}

impl Name for Identifier {
    open spec fn spec_name(&self) -> Seq<char> {
        self.name@
    }

    fn name(&self) -> (name: String) {
        self.name.clone()
    }
}

impl<T: Identify> Name for T {
    open spec fn spec_name(&self) -> Seq<char> {
        self.spec_identify().name
    }

    fn name(&self) -> (name: String) {
        self.identify().name
    }
}

impl<T: Identify> Id for T {
    open spec fn spec_id(&self) -> u64 {
        self.spec_identify().id
    }

    fn id(&self) -> (id: u64) {
        self.identify().id
    }
}

impl PartialEq for Identifier {
    fn eq(&self, other: &Identifier) -> (r: bool) {
        self.id == other.id
    }
}

impl PartialEqSpecImpl for Identifier {
    open spec fn obeys_eq_spec() -> bool {
        true
    }

    open spec fn eq_spec(&self, other: &Identifier) -> bool {
        self.id == other.id
    }
}

impl Eq for Identifier {}

/// An `Identifier` is hashed by its number alone, as it is compared.
impl core::hash::Hash for Identifier {
    /// Calls `u64::hash` on the number, which feeds the number into the
    /// hasher. Nothing is claimed of the hasher afterwards.
    #[verifier::external_body]
    fn hash<H: core::hash::Hasher>(&self, state: &mut H) {
        self.id.hash(state)
    }
}

/// All components that name an element of the source code use a `Symbol`: an
/// identity created directly from source text.
#[derive(Debug)]
pub struct Symbol {
    pub identifier: Identifier,
}

impl View for Symbol {
    type V = IdentifierView;

    open spec fn view(&self) -> IdentifierView {
        self.identifier@
    }
}

impl Clone for Symbol {
    fn clone(&self) -> (res: Symbol)
        ensures
            res == *self,
    {
        Symbol { identifier: self.identifier.clone() }
    }
}

impl Symbol {
    /// A symbol with a fresh identity and the given name.
    pub fn new(alloc: &mut IdAllocator, name: &str) -> (symbol: Symbol)
        ensures
            symbol@ == (IdentifierView { id: old(alloc).spec_next(), name: name@ }),
            final(alloc).follows(*old(alloc)),
    {
        Symbol { identifier: Identifier::name(alloc, name) }
    }
}

impl PartialEq for Symbol {
    fn eq(&self, other: &Symbol) -> (r: bool) {
        self.identifier.id == other.identifier.id
    }
}

impl PartialEqSpecImpl for Symbol {
    open spec fn obeys_eq_spec() -> bool {
        true
    }

    open spec fn eq_spec(&self, other: &Symbol) -> bool {
        self.identifier.id == other.identifier.id
    }
}

impl Eq for Symbol {}

impl Identify for Symbol {
    open spec fn spec_identify(&self) -> IdentifierView {
        self@
    }

    fn identify(&self) -> (identifier: Identifier) {
        self.identifier.clone()
    }
}

impl Symbolise for Symbol {
    open spec fn spec_symbolise(&self) -> IdentifierView {
        self@
    }

    fn symbolise(&self) -> (symbol: Symbol) {
        self.clone()
    }
}

impl From<Identifier> for Symbol {
    fn from(identifier: Identifier) -> (symbol: Symbol) {
        Symbol { identifier }
    }
}

impl FromSpecImpl<Identifier> for Symbol {
    open spec fn obeys_from_spec() -> bool {
        true
    }

    open spec fn from_spec(identifier: Identifier) -> Symbol {
        Symbol { identifier }
    }
}

/// Identities come in rising order. Of two allocations from one allocator
/// the later one returns the larger identity, unless the allocator has run
/// out of identities by then: so no identity is handed out twice.
pub proof fn lemma_identities_rise(next: u64, exhausted: bool, i: nat, j: nat)
    requires
        i < j,
        !IdAllocator::spec_after(next, exhausted, j).1,
    ensures
        IdAllocator::spec_after(next, exhausted, i).0 < IdAllocator::spec_after(
            next,
            exhausted,
            j,
        ).0,
        IdAllocator::spec_after(next, exhausted, i).0 == next + i,
        !IdAllocator::spec_after(next, exhausted, i).1,
    decreases j,
{
    lemma_counted(next, exhausted, j);
    lemma_counted(next, exhausted, i);
    if IdAllocator::spec_after(next, exhausted, i).1 {
        lemma_exhaustion_stays(next, exhausted, i, j);
    }
}

/// While the allocator has not run out, its counter has moved up by one
/// for each allocation.
pub proof fn lemma_counted(next: u64, exhausted: bool, k: nat)
    ensures
        !IdAllocator::spec_after(next, exhausted, k).1 ==> IdAllocator::spec_after(
            next,
            exhausted,
            k,
        ).0 == next + k,
        next <= IdAllocator::spec_after(next, exhausted, k).0 <= next + k,
        exhausted ==> IdAllocator::spec_after(next, exhausted, k).1,
    decreases k,
{
    if k > 0 {
        lemma_counted(next, exhausted, (k - 1) as nat);
    }
}

/// An allocator that has run out stays run out.
pub proof fn lemma_exhaustion_stays(next: u64, exhausted: bool, i: nat, j: nat)
    requires
        i <= j,
        IdAllocator::spec_after(next, exhausted, i).1,
    ensures
        IdAllocator::spec_after(next, exhausted, j).1,
    decreases j - i,
{
    if i < j {
        lemma_exhaustion_stays(next, exhausted, i, (j - 1) as nat);
    }
}

} // verus!
