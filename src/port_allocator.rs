//! Local port number allocation.
//!
//! A [`PortAllocator`] hands out locally unique 32-bit port numbers, at most
//! `limit` of them at once. A [`PortNumber`] cannot be cloned, so each number
//! is held by exactly one owner and can be released only once.
use std::collections::HashSet;
use tokio::sync::oneshot;
use vstd::prelude::*;
use vstd::set_lib::{lemma_int_range, lemma_len_subset, lemma_map_size, set_int_range};

verus! {

broadcast use vstd::std_specs::hash::group_hash_axioms;

/// Relies on `rand::random`: draws a value from the standard distribution.
/// Nothing is promised of the value drawn.
pub assume_specification<T>[ rand::random::<T> ]() -> (r: T)
    where
        rand::distributions::Standard: rand::distributions::Distribution<T>,
;

/// Relies on std's `Hash` for `u32`: feeds the integer to the hasher.
/// Nothing is claimed of the hasher's state afterwards.
pub assume_specification<H: core::hash::Hasher>[ <u32 as core::hash::Hash>::hash::<H> ](
    data: &u32,
    state: &mut H,
);

/// The sending half of a tokio one-shot channel, used to wake a task waiting
/// for a free port number. It is carried through opaquely.
#[verifier::external_type_specification]
#[verifier::external_body]
#[verifier::reject_recursive_types(T)]
pub struct ExOneshotSender<T>(oneshot::Sender<T>);

/// Number of random candidates drawn for one allocation. When all of them
/// are in use, the allocator takes the smallest free number instead of
/// drawing until a free one comes up, so that every allocation ends.
pub const RANDOM_PROBES: usize = 64;

/// The first of the candidates `d` that is not in `s`, if any.
pub open spec fn first_not_in(s: Set<u32>, d: Seq<u32>) -> Option<u32>
    decreases d.len(),
{
    if d.len() == 0 {
        None
    } else if !s.contains(d[0]) {
        Some(d[0])
    } else {
        first_not_in(s, d.drop_first())
    }
}

/// `x` is the smallest number that is not in `s`.
pub open spec fn is_smallest_free(s: Set<u32>, x: u32) -> bool {
    &&& !s.contains(x)
    &&& forall|y: u32| y < x ==> s.contains(y)
}

/// `x` is the number chosen when `s` is in use and `d` was drawn: the first
/// free candidate, or else the smallest free number.
pub open spec fn picked(s: Set<u32>, d: Seq<u32>, x: u32) -> bool {
    match first_not_in(s, d) {
        Some(y) => x == y,
        None => is_smallest_free(s, x),
    }
}

/// The candidates from the `i`-th on decide as all of them do, when the
/// ones before are in use.
proof fn lemma_first_not_in_skip(s: Set<u32>, d: Seq<u32>, i: int)
    requires
        0 <= i < d.len(),
        s.contains(d[i]),
        first_not_in(s, d) == first_not_in(s, d.skip(i)),
    ensures
        first_not_in(s, d) == first_not_in(s, d.skip(i + 1)),
{
    assert(d.skip(i)[0] == d[i]);
    assert(d.skip(i).drop_first() =~= d.skip(i + 1));
}

/// An allocated local port number.
///
/// It is neither `Clone` nor `Copy`: giving it back to its allocator
/// consumes it. It carries the id of the allocator that handed it out, and
/// only that allocator takes it back. Equality, ordering, hashing and
/// borrowing go by the number alone.
#[derive(Debug)]
pub struct PortNumber {
    number: u32,
    owner: u64,
}

impl core::borrow::Borrow<u32> for PortNumber {
    /// The port number, so that a port can be looked up by its number.
    fn borrow(&self) -> &u32 {
        &self.number
    }
}

impl PartialEq for PortNumber {
    /// Port numbers are equal when their numbers are.
    fn eq(&self, other: &PortNumber) -> (r: bool) {
        self.number == other.number
    }
}

impl vstd::std_specs::cmp::PartialEqSpecImpl for PortNumber {
    open spec fn obeys_eq_spec() -> bool {
        true
    }

    open spec fn eq_spec(&self, other: &PortNumber) -> bool {
        self@ == other@
    }
}

impl Eq for PortNumber {}

impl PartialOrd for PortNumber {
    /// Port numbers are ordered by their numbers.
    fn partial_cmp(&self, other: &PortNumber) -> (r: Option<core::cmp::Ordering>) {
        if self.number < other.number {
            Some(core::cmp::Ordering::Less)
        } else if self.number == other.number {
            Some(core::cmp::Ordering::Equal)
        } else {
            Some(core::cmp::Ordering::Greater)
        }
    }
}

impl vstd::std_specs::cmp::PartialOrdSpecImpl for PortNumber {
    open spec fn obeys_partial_cmp_spec() -> bool {
        true
    }

    open spec fn partial_cmp_spec(&self, other: &PortNumber) -> Option<core::cmp::Ordering> {
        if self@ < other@ {
            Some(core::cmp::Ordering::Less)
        } else if self@ == other@ {
            Some(core::cmp::Ordering::Equal)
        } else {
            Some(core::cmp::Ordering::Greater)
        }
    }
}


impl core::hash::Hash for PortNumber {
    fn hash<H: core::hash::Hasher>(&self, state: &mut H) {
        self.number.hash(state);
    }
}

impl View for PortNumber {
    type V = u32;

    closed spec fn view(&self) -> u32 {
        self.number
    }
}

impl PortNumber {
    /// The id of the allocator that handed out this number.
    pub closed spec fn owner(&self) -> u64 {
        self.owner
    }

    /// The port number itself.
    pub fn number(&self) -> (r: u32)
        ensures
            r == self@,
    {
        self.number
    }
}

/// Local port number allocator.
pub struct PortAllocator {
    used: HashSet<u32>,
    limit: u32,
    notify_tx: Vec<oneshot::Sender<()>>,
    id: u64,
}

impl PortAllocator {
    /// The port numbers currently in use.
    pub closed spec fn used(&self) -> Set<u32> {
        self.used@
    }

    /// The id that this allocator stamps on the numbers it hands out.
    pub closed spec fn id(&self) -> u64 {
        self.id
    }

    /// The largest number of port numbers in use at once.
    pub closed spec fn limit(&self) -> u32 {
        self.limit
    }

    /// The tasks waiting for a port number to become free, in order of arrival.
    pub closed spec fn waiters(&self) -> Seq<oneshot::Sender<()>> {
        self.notify_tx@
    }

    /// The allocator's invariant: at most `limit` numbers are in use.
    pub closed spec fn wf(&self) -> bool {
        &&& self.used@.finite()
        &&& self.used@.len() <= self.limit
    }

    /// Whether a further port number can be allocated now.
    pub open spec fn has_room(&self) -> bool {
        self.used().len() < self.limit()
    }

    /// Creates a new port number allocator that allows `limit` ports at once.
    /// Its id is drawn at random.
    pub fn new(limit: u32) -> (r: PortAllocator)
        ensures
            r.wf(),
            r.used() == Set::<u32>::empty(),
            r.limit() == limit,
            r.waiters().len() == 0,
    {
        let id: u64 = rand::random();
        PortAllocator { used: HashSet::new(), limit, notify_tx: Vec::new(), id }
    }

    /// Whether `port` was handed out by this allocator.
    pub fn owns(&self, port: &PortNumber) -> (r: bool)
        ensures
            r == (port.owner() == self.id()),
    {
        port.owner == self.id
    }

    /// Number of port numbers in use.
    pub fn used_count(&self) -> (r: usize)
        requires
            self.wf(),
        ensures
            r == self.used().len(),
    {
        self.used.len()
    }

    /// Number of tasks waiting for a port number.
    pub fn waiter_count(&self) -> (r: usize)
        ensures
            r == self.waiters().len(),
    {
        self.notify_tx.len()
    }

    /// The largest number of port numbers in use at once.
    pub fn get_limit(&self) -> (r: u32)
        ensures
            r == self.limit(),
    {
        self.limit
    }

    /// Whether the port number `number` is in use.
    pub fn is_used(&self, number: u32) -> (r: bool)
        ensures
            r == self.used().contains(number),
    {
        self.used.contains(&number)
    }

    /// Whether a further port number can be allocated now.
    pub fn is_available(&self) -> (r: bool)
        requires
            self.wf(),
        ensures
            r == self.has_room(),
    {
        self.used.len() < self.limit as usize
    }

    /// The first of the candidates `draws` that is not in use, if any.
    pub fn first_unused(&self, draws: &Vec<u32>) -> (r: Option<u32>)
        ensures
            r == first_not_in(self.used(), draws@),
    {
        let ghost s = self.used@;
        let ghost d = draws@;
        let mut i: usize = 0;
        assert(d.skip(0) =~= d);
        while i < draws.len()
            invariant
                s == self.used@,
                d == draws@,
                i <= d.len(),
                first_not_in(s, d) == first_not_in(s, d.skip(i as int)),
            decreases d.len() - i,
        {
            let cand = draws[i];
            if !self.used.contains(&cand) {
                assert(d.skip(i as int)[0] == cand);
                return Some(cand);
            }
            proof {
                lemma_first_not_in_skip(s, d, i as int);
            }
            i = i + 1;
        }
        assert(d.skip(i as int).len() == 0);
        None
    }

    /// The smallest number that is not in use.
    fn smallest_unused(&self) -> (r: u32)
        requires
            self.wf(),
            self.has_room(),
        ensures
            is_smallest_free(self.used(), r),
    {
        let mut cand: u32 = 0;
        loop
            invariant
                self.wf(),
                self.has_room(),
                forall|x: u32| x < cand ==> self.used@.contains(x),
            decreases u32::MAX - cand,
        {
            if !self.used.contains(&cand) {
                return cand;
            }
            proof {
                lemma_prefix_fits(self.used@, cand as int + 1);
            }
            cand = cand + 1;
        }
    }

    /// Allocates a local port number, given the random candidates `draws`:
    /// the first candidate that is not in use, or else the smallest number
    /// that is not. Returns `None` when `limit` numbers are in use already.
    pub fn try_allocate_with(&mut self, draws: &Vec<u32>) -> (r: Option<PortNumber>)
        requires
            old(self).wf(),
        ensures
            final(self).wf(),
            final(self).id() == old(self).id(),
            final(self).limit() == old(self).limit(),
            final(self).waiters() == old(self).waiters(),
            r is None <==> !old(self).has_room(),
            r is None ==> final(self).used() == old(self).used(),
            r matches Some(p) ==> picked(old(self).used(), draws@, p@) && !old(self).used().contains(p@)
                && final(self).used() == old(self).used().insert(p@) && p.owner() == old(self).id(),
    {
        if self.is_available() {
            let number = match self.first_unused(draws) {
                Some(n) => n,
                None => self.smallest_unused(),
            };
            proof {
                lemma_picked_is_free(self.used@, draws@, number);
            }
            self.used.insert(number);
            Some(PortNumber { number, owner: self.id })
        } else {
            None
        }
    }

    /// Tries to allocate a local port number, drawing its candidates at
    /// random. Returns `None` when `limit` numbers are in use already.
    pub fn try_allocate(&mut self) -> (r: Option<PortNumber>)
        requires
            old(self).wf(),
        ensures
            final(self).wf(),
            final(self).id() == old(self).id(),
            final(self).limit() == old(self).limit(),
            final(self).waiters() == old(self).waiters(),
            r is None <==> !old(self).has_room(),
            r is None ==> final(self).used() == old(self).used(),
            r matches Some(p) ==> (exists|d: Seq<u32>|
                d.len() == RANDOM_PROBES && #[trigger] picked(old(self).used(), d, p@))
                && !old(self).used().contains(p@) && final(self).used() == old(self).used().insert(
                p@) && p.owner() == old(self).id(),
    {
        let mut draws: Vec<u32> = Vec::new();
        while draws.len() < RANDOM_PROBES
            invariant
                draws@.len() <= RANDOM_PROBES,
            decreases RANDOM_PROBES - draws@.len(),
        {
            let cand: u32 = rand::random();
            draws.push(cand);
        }
        let ghost old_used = self.used();
        let r = self.try_allocate_with(&draws);
        proof {
            if let Some(p) = &r {
                assert(picked(old_used, draws@, p@));
            }
        }
        r
    }

    /// One round of waiting allocation: allocates a number if one is free,
    /// and otherwise queues `waiter`, which is woken by the next release.
    pub fn allocate_or_wait(&mut self, waiter: oneshot::Sender<()>) -> (r: Option<PortNumber>)
        requires
            old(self).wf(),
        ensures
            final(self).wf(),
            final(self).id() == old(self).id(),
            final(self).limit() == old(self).limit(),
            r is None <==> !old(self).has_room(),
            r is None ==> final(self).used() == old(self).used() && final(self).waiters() == old(self).waiters().push(waiter),
            r matches Some(p) ==> (exists|d: Seq<u32>|
                d.len() == RANDOM_PROBES && #[trigger] picked(old(self).used(), d, p@))
                && !old(self).used().contains(p@) && final(self).used() == old(self).used().insert(
                p@) && final(self).waiters() == old(self).waiters() && p.owner() == old(self).id(),
    {
        match self.try_allocate() {
            Some(p) => Some(p),
            None => {
                self.notify_tx.push(waiter);
                None
            },
        }
    }

    /// Gives a port number of this allocator back and hands out every
    /// waiting task, all of which are to be woken so that each can try
    /// again. A number handed out by another allocator changes nothing.
    pub fn release(&mut self, port: PortNumber) -> (woken: Vec<oneshot::Sender<()>>)
        requires
            old(self).wf(),
        ensures
            final(self).wf(),
            final(self).id() == old(self).id(),
            final(self).limit() == old(self).limit(),
            port.owner() == old(self).id() ==> final(self).used() == old(self).used().remove(port@)
                && final(self).waiters().len() == 0 && woken@ == old(self).waiters(),
            port.owner() != old(self).id() ==> final(self).used() == old(self).used() && final(
                self).waiters() == old(self).waiters() && woken@.len() == 0,
    {
        let PortNumber { number, owner } = port;
        let mut woken: Vec<oneshot::Sender<()>> = Vec::new();
        if owner == self.id {
            self.used.remove(&number);
            std::mem::swap(&mut woken, &mut self.notify_tx);
        }
        woken
    }
}

/// A port connection request by the local endpoint.
///
/// The id can be set freely by the user; it starts out as the port number.
#[derive(Debug)]
pub struct PortReq {
    /// The allocated, local port number.
    pub port: PortNumber,
    /// A user-specified id.
    pub id: u32,
}

/// How two requests compare: by port number, then by id.
pub open spec fn port_req_cmp(a: &PortReq, b: &PortReq) -> core::cmp::Ordering {
    if a.port@ < b.port@ || (a.port@ == b.port@ && a.id < b.id) {
        core::cmp::Ordering::Less
    } else if a.port@ == b.port@ && a.id == b.id {
        core::cmp::Ordering::Equal
    } else {
        core::cmp::Ordering::Greater
    }
}

impl PortReq {
    fn compare(&self, other: &PortReq) -> (r: core::cmp::Ordering)
        ensures
            r == port_req_cmp(self, other),
    {
        let (a, b) = (self.port.number, other.port.number);
        if a < b || (a == b && self.id < other.id) {
            core::cmp::Ordering::Less
        } else if a == b && self.id == other.id {
            core::cmp::Ordering::Equal
        } else {
            core::cmp::Ordering::Greater
        }
    }
}

impl PartialEq for PortReq {
    /// Requests are equal when their port numbers and ids are.
    fn eq(&self, other: &PortReq) -> (r: bool) {
        self.port.number == other.port.number && self.id == other.id
    }
}

impl vstd::std_specs::cmp::PartialEqSpecImpl for PortReq {
    open spec fn obeys_eq_spec() -> bool {
        true
    }

    open spec fn eq_spec(&self, other: &PortReq) -> bool {
        self.port@ == other.port@ && self.id == other.id
    }
}

impl Eq for PortReq {}

impl PartialOrd for PortReq {
    fn partial_cmp(&self, other: &PortReq) -> (r: Option<core::cmp::Ordering>) {
        Some(self.compare(other))
    }
}

impl vstd::std_specs::cmp::PartialOrdSpecImpl for PortReq {
    open spec fn obeys_partial_cmp_spec() -> bool {
        true
    }

    open spec fn partial_cmp_spec(&self, other: &PortReq) -> Option<core::cmp::Ordering> {
        Some(port_req_cmp(self, other))
    }
}


impl core::hash::Hash for PortReq {
    fn hash<H: core::hash::Hasher>(&self, state: &mut H) {
        self.port.number.hash(state);
        self.id.hash(state);
    }
}

impl From<PortNumber> for PortReq {
    /// A request whose id is the port number.
    fn from(port: PortNumber) -> (r: PortReq)
        ensures
            r.port == port,
            r.id == port@,
    {
        let id = port.number;
        PortReq { port, id }
    }
}

impl vstd::std_specs::convert::FromSpecImpl<PortNumber> for PortReq {
    open spec fn obeys_from_spec() -> bool {
        true
    }

    open spec fn from_spec(port: PortNumber) -> PortReq {
        PortReq { id: port@, port }
    }
}

impl From<PortReq> for PortNumber {
    /// The port number of a request.
    fn from(req: PortReq) -> (r: PortNumber)
        ensures
            r == req.port,
    {
        req.port
    }
}

impl vstd::std_specs::convert::FromSpecImpl<PortReq> for PortNumber {
    open spec fn obeys_from_spec() -> bool {
        true
    }

    open spec fn from_spec(req: PortReq) -> PortNumber {
        req.port
    }
}

impl PortReq {
    /// A request whose id is the port number.
    pub fn new(port: PortNumber) -> (r: PortReq)
        ensures
            r.port == port,
            r.id == port@,
    {
        PortReq::from(port)
    }

    /// Sets the id to `id`, keeping the port number.
    pub fn with_id(self, id: u32) -> (r: PortReq)
        ensures
            r.port == self.port,
            r.id == id,
    {
        let mut req = self;
        req.id = id;
        req
    }
}

/// The number picked is not in use.
proof fn lemma_picked_is_free(s: Set<u32>, d: Seq<u32>, x: u32)
    requires
        picked(s, d, x),
    ensures
        !s.contains(x),
    decreases d.len(),
{
    if d.len() > 0 && s.contains(d[0]) {
        lemma_picked_is_free(s, d.drop_first(), x);
    }
}

/// If every number below `n` is in the finite set `s`, then `s` holds at
/// least `n` numbers.
proof fn lemma_prefix_fits(s: Set<u32>, n: int)
    requires
        s.finite(),
        0 <= n <= u32::MAX as int + 1,
        forall|x: u32| x < n ==> s.contains(x),
    ensures
        n <= s.len(),
{
    let f = |x: u32| x as int;
    let img = s.map(f);
    lemma_map_size(s, img, f);
    lemma_int_range(0, n);
    assert forall|i: int| set_int_range(0, n).contains(i) implies img.contains(i) by {
        let x = i as u32;
        assert(s.contains(x));
        assert(f(x) == i);
    }
    lemma_len_subset(set_int_range(0, n), img);
}

/// The allocator never has more than `limit` port numbers in use.
pub proof fn lemma_used_within_limit(a: &PortAllocator)
    requires
        a.wf(),
    ensures
        a.used().finite(),
        a.used().len() <= a.limit(),
{
}

/// Two numbers handed out one after the other by one allocator differ, and
/// releasing both frees two distinct slots: the numbers in use are those of
/// before the two allocations.
pub proof fn lemma_allocations_distinct(a0: &PortAllocator, a1: &PortAllocator, a2: &PortAllocator, p: u32, q: u32)
    requires
        a0.wf(),
        !a0.used().contains(p),
        a1.used() == a0.used().insert(p),
        !a1.used().contains(q),
        a2.used() == a1.used().insert(q),
    ensures
        p != q,
        a2.used().remove(p).contains(q),
        a2.used().remove(p).remove(q) == a0.used(),
        a2.used().remove(q).remove(p) == a0.used(),
        a2.used().len() == a0.used().len() + 2,
{
    assert(a2.used().remove(p).remove(q) =~= a0.used());
    assert(a2.used().remove(q).remove(p) =~= a0.used());
}

} // verus!
