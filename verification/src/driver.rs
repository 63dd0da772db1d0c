//! Device driver capability and driver manager.
//!
//! Any hardware driver implements the minimal capability (identify,
//! initialize); the manager is a fixed-capacity registry that initializes
//! and enumerates its drivers in registration order.

use vstd::prelude::*;

verus! {

/// Most drivers a board of this family needs; the registry never grows past
/// this, and exceeding it during discovery is a programming error.
pub const DRIVER_CAPACITY: usize = 8;

/// The minimal polymorphic contract of a hardware driver.
pub trait DeviceDriver: Sized {
    /// The driver's stable compatibility string, for contracts.
    spec fn id(&self) -> Seq<char>;

    /// Whether hardware setup would succeed from the current state.
    spec fn init_ok(&self) -> bool;

    /// Whether hardware setup has completed.
    spec fn inited(&self) -> bool;

    /// A stable, human-readable identification string; pure, callable at any
    /// time after construction.
    fn compatible(&self) -> (r: &'static str)
        ensures
            r@ == self.id(),
    ;

    /// Hardware-specific setup. Called at most once per driver, from the
    /// manager's initialization pass; a failure carries a descriptive reason
    /// and leaves the driver as it was.
    fn init(&mut self) -> (r: Result<(), &'static str>)
        requires
            !old(self).inited(),
        ensures
            r is Ok <==> old(self).init_ok(),
            final(self).id() == old(self).id(),
            r is Ok ==> final(self).inited(),
            r is Err ==> *final(self) == *old(self),
    ;
}

/// Why and where the initialization pass stopped: the position and
/// compatibility string of the first driver whose setup failed.
pub struct DriverInitError {
    pub index: usize,
    pub compatible: &'static str,
}

/// An ordered, fixed-capacity registry of drivers. Registration order is
/// stable and becomes initialization and enumeration order; once the
/// initialization pass has begun the registry is frozen.
pub struct DriverManager<D> {
    drivers: Vec<D>,
    started: bool,
}

impl<D: DeviceDriver> DriverManager<D> {
    /// The registered drivers, in registration order.
    pub closed spec fn records(&self) -> Seq<D> {
        self.drivers@
    }

    /// Whether the initialization pass has begun (the registry is frozen).
    pub closed spec fn started(&self) -> bool {
        self.started
    }

    /// An empty registry, open for registration.
    pub fn new() -> (r: Self)
        ensures
            r.records() == Seq::<D>::empty(),
            !r.started(),
    {
        let r = DriverManager { drivers: Vec::new(), started: false };
        proof {
            assert(r.records() =~= Seq::<D>::empty());
        }
        r
    }

    /// Append one driver record. Valid only during the discovery step,
    /// before initialization, and only below the fixed capacity.
    pub fn register(&mut self, driver: D)
        requires
            !old(self).started(),
            old(self).records().len() < DRIVER_CAPACITY,
        ensures
            final(self).records() == old(self).records().push(driver),
            !final(self).started(),
    {
        self.drivers.push(driver);
    }

    /// How many drivers are registered.
    pub fn num_registered(&self) -> (r: usize)
        ensures
            r == self.records().len(),
    {
        self.drivers.len()
    }

    /// The driver at one registration position.
    pub fn driver_at(&self, i: usize) -> (r: &D)
        requires
            i < self.records().len(),
        ensures
            *r == self.records()[i as int],
    {
        &self.drivers[i]
    }

    /// Dissolve the registry and hand its drivers, in registration order, to
    /// their steady-state owners. Meaningful once bring-up is over: the
    /// registry was frozen by the initialization pass and is never consulted
    /// again once the drivers have found their users.
    pub fn into_records(self) -> (r: Vec<D>)
        ensures
            r@ == self.records(),
    {
        self.drivers
    }

    /// Initialize every registered driver, in registration order, stopping
    /// at the first failure without touching any driver after it; a failure
    /// names the driver it stopped on. Fail-fast, no rollback.
    pub fn init_drivers(&mut self) -> (r: Result<(), DriverInitError>)
        requires
            !old(self).started(),
            forall|i: int|
                0 <= i < old(self).records().len() ==> !(#[trigger] old(self).records()[i]).inited(),
        ensures
            final(self).started(),
            final(self).records().len() == old(self).records().len(),
            forall|i: int|
                0 <= i < old(self).records().len() ==> (#[trigger] final(self).records()[i]).id()
                    == old(self).records()[i].id(),
            r is Ok <==> (forall|i: int|
                0 <= i < old(self).records().len() ==> (#[trigger] old(self).records()[i]).init_ok()),
            r is Ok ==> forall|i: int|
                0 <= i < old(self).records().len() ==> (#[trigger] final(self).records()[i]).inited(),
            r matches Err(e) ==> {
                &&& 0 <= e.index < old(self).records().len()
                &&& !old(self).records()[e.index as int].init_ok()
                &&& e.compatible@ == old(self).records()[e.index as int].id()
                &&& forall|i: int|
                    0 <= i < e.index ==> (#[trigger] old(self).records()[i]).init_ok()
                        && final(self).records()[i].inited()
                &&& forall|i: int|
                    e.index <= i < old(self).records().len()
                        ==> #[trigger] final(self).records()[i] == old(self).records()[i]
            },
    {
        self.started = true;
        let n = self.drivers.len();
        let mut i: usize = 0;
        while i < n
            invariant
                n == self.drivers@.len() == old(self).records().len(),
                0 <= i <= n,
                self.started,
                forall|k: int|
                    0 <= k < i ==> (#[trigger] self.drivers@[k]).inited() && self.drivers@[k].id()
                        == old(self).records()[k].id(),
                forall|k: int| 0 <= k < i ==> (#[trigger] old(self).records()[k]).init_ok(),
                forall|k: int|
                    i <= k < n ==> #[trigger] self.drivers@[k] == old(self).records()[k],
                forall|k: int|
                    0 <= k < n ==> !(#[trigger] old(self).records()[k]).inited(),
            decreases n - i,
        {
            proof {
                assert(self.drivers@[i as int] == old(self).records()[i as int]);
                assert(!old(self).records()[i as int].inited());
                assert(!self.drivers@[i as int].inited());
            }
            let outcome = self.drivers[i].init();
            match outcome {
                Ok(()) => {
                    i = i + 1;
                },
                Err(_) => {
                    let name = self.drivers[i].compatible();
                    return Err(DriverInitError { index: i, compatible: name });
                },
            }
        }
        proof {
            assert(forall|k: int|
                0 <= k < n ==> (#[trigger] self.records()[k]).inited()
                    && old(self).records()[k].init_ok());
        }
        Ok(())
    }

    /// The compatibility strings of all registered drivers, in registration
    /// order; read-only, callable repeatedly.
    pub fn enumerate(&self) -> (r: Vec<&'static str>)
        ensures
            r@.len() == self.records().len(),
            forall|i: int| 0 <= i < r@.len() ==> (#[trigger] r@[i])@ == self.records()[i].id(),
    {
        let mut names: Vec<&'static str> = Vec::new();
        let n = self.drivers.len();
        let mut i: usize = 0;
        while i < n
            invariant
                n == self.drivers@.len(),
                0 <= i <= n,
                names@.len() == i,
                forall|k: int| 0 <= k < i ==> (#[trigger] names@[k])@ == self.records()[k].id(),
            decreases n - i,
        {
            let name = self.drivers[i].compatible();
            names.push(name);
            i = i + 1;
        }
        names
    }
}

/// A driver whose setup outcome is decided at construction: it stands in for
/// transports whose probe can fail, which the manager must handle fail-fast.
pub struct ProbeDriver {
    name: &'static str,
    healthy: bool,
    inited: bool,
}

impl ProbeDriver {
    /// A driver named `name` whose `init` will succeed iff `healthy`.
    pub fn new(name: &'static str, healthy: bool) -> (r: Self)
        ensures
            r.id() == name@,
            r.init_ok() == healthy,
            !r.inited(),
    {
        ProbeDriver { name, healthy, inited: false }
    }

    /// Whether this driver's setup has run to completion.
    pub fn is_inited(&self) -> (r: bool)
        ensures
            r == self.inited(),
    {
        self.inited
    }
}

impl DeviceDriver for ProbeDriver {
    closed spec fn id(&self) -> Seq<char> {
        self.name@
    }

    closed spec fn init_ok(&self) -> bool {
        self.healthy
    }

    closed spec fn inited(&self) -> bool {
        self.inited
    }

    fn compatible(&self) -> (r: &'static str) {
        self.name
    }

    fn init(&mut self) -> (r: Result<(), &'static str>) {
        if self.healthy {
            self.inited = true;
            Ok(())
        } else {
            Err("probe failed")
        }
    }
}

} // verus!
