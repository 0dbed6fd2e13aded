//! The address bus: an ordered list of address ranges, each served by one device.
//!
//! Every address of the 16-bit space is routed to the first binding whose range
//! holds it; the device sees the address as an offset from the start of its range.
//! An address that no binding holds reads as zero and swallows writes.

use std::ops::RangeInclusive;
use vstd::prelude::*;

verus! {

/// What a device is to the bus: the bytes it keeps, the offsets it can serve, and
/// how it answers a read and takes a write.
///
/// A write changes `cells` only, so the offsets a device serves and the way it
/// behaves stay what they were when the device was made.
pub struct DeviceModel {
    pub cells: Seq<u8>,
    pub serves: spec_fn(u16) -> bool,
    pub read: spec_fn(Seq<u8>, u16) -> u8,
    pub write: spec_fn(Seq<u8>, u16, u8) -> Seq<u8>,
}

impl DeviceModel {
    /// The byte that a read at `addr` returns.
    pub open spec fn peek(self, addr: u16) -> u8 {
        (self.read)(self.cells, addr)
    }

    /// The device after `value` was written at `addr`.
    pub open spec fn poked(self, addr: u16, value: u8) -> DeviceModel {
        DeviceModel { cells: (self.write)(self.cells, addr, value), ..self }
    }

    /// Every offset from 0 up to and including `last` can be served.
    pub open spec fn serves_through(self, last: int) -> bool {
        forall|offset: u16| 0 <= offset <= last ==> #[trigger] (self.serves)(offset)
    }
}

/// A peripheral on the bus: plain memory, a ROM bank, a block of control registers.
///
/// `read` and `write` take an offset local to the device. A device may be unable to
/// serve some offsets; `model().serves` says which it can.
pub trait Device {
    /// The device as the bus sees it. This is ghost code and never runs: a device
    /// that is not verified may give it any body.
    spec fn model(&self) -> DeviceModel;

    fn read(&self, addr: u16) -> (value: u8)
        requires
            (self.model().serves)(addr),
        ensures
            value == self.model().peek(addr),
    ;

    fn write(&mut self, addr: u16, value: u8)
        requires
            (old(self).model().serves)(addr),
        ensures
            final(self).model() == old(self).model().poked(addr, value),
    ;
}

/// One registration: the inclusive range `lo..=hi` and the device behind it.
pub struct BindingModel {
    pub lo: u16,
    pub hi: u16,
    pub device: DeviceModel,
}

impl BindingModel {
    /// The range holds `addr`.
    pub open spec fn holds(self, addr: u16) -> bool {
        self.lo <= addr <= self.hi
    }

    /// The device can serve every address of the range.
    pub open spec fn fits(self) -> bool {
        self.device.serves_through(self.hi - self.lo)
    }
}

/// The bus as a value: its bindings in the order of registration.
pub struct BusModel {
    pub bindings: Seq<BindingModel>,
}

impl BusModel {
    /// The index of the first binding at or after `from` that holds `addr`, or the
    /// number of bindings if there is none.
    pub open spec fn slot_from(self, addr: u16, from: int) -> int
        decreases self.bindings.len() - from,
    {
        if from < 0 || from >= self.bindings.len() {
            self.bindings.len() as int
        } else if self.bindings[from].holds(addr) {
            from
        } else {
            self.slot_from(addr, from + 1)
        }
    }

    /// The index of the binding that serves `addr`: the first registered one whose
    /// range holds it.
    pub open spec fn slot(self, addr: u16) -> int {
        self.slot_from(addr, 0)
    }

    /// Some binding holds `addr`.
    pub open spec fn mapped(self, addr: u16) -> bool {
        self.slot(addr) < self.bindings.len()
    }

    /// The offset that the serving device sees for `addr`.
    pub open spec fn offset(self, addr: u16) -> u16 {
        (addr - self.bindings[self.slot(addr)].lo) as u16
    }

    /// The byte read at `addr`: the serving device's answer, or 0 where no binding
    /// holds the address.
    #[verifier::opaque]
    pub open spec fn peek(self, addr: u16) -> u8 {
        if self.mapped(addr) {
            self.bindings[self.slot(addr)].device.peek(self.offset(addr))
        } else {
            0
        }
    }

    /// The bus after `value` was written at `addr`: the serving device took the
    /// write, every other binding is untouched; unchanged where no binding holds
    /// the address.
    #[verifier::opaque]
    pub open spec fn poked(self, addr: u16, value: u8) -> BusModel {
        if self.mapped(addr) {
            let i = self.slot(addr);
            let b = self.bindings[i];
            BusModel {
                bindings: self.bindings.update(
                    i,
                    BindingModel { device: b.device.poked(self.offset(addr), value), ..b },
                ),
            }
        } else {
            self
        }
    }

    /// Every device can serve the whole of its range.
    pub open spec fn fits(self) -> bool {
        forall|i: int| 0 <= i < self.bindings.len() ==> (#[trigger] self.bindings[i]).fits()
    }

    /// The bus with one more binding, registered last.
    pub open spec fn bound(self, lo: u16, hi: u16, device: DeviceModel) -> BusModel {
        BusModel { bindings: self.bindings.push(BindingModel { lo, hi, device }) }
    }
}

/// The slot of an address, searched from `from` on, is the first binding from there
/// on that holds the address.
pub proof fn lemma_slot_from(bus: BusModel, addr: u16, from: int)
    requires
        0 <= from <= bus.bindings.len(),
    ensures
        from <= bus.slot_from(addr, from) <= bus.bindings.len(),
        bus.slot_from(addr, from) < bus.bindings.len() ==> bus.bindings[bus.slot_from(
            addr,
            from,
        )].holds(addr),
        forall|j: int|
            from <= j < bus.slot_from(addr, from) ==> !(#[trigger] bus.bindings[j]).holds(addr),
    decreases bus.bindings.len() - from,
{
    if from < bus.bindings.len() && !bus.bindings[from].holds(addr) {
        lemma_slot_from(bus, addr, from + 1);
    }
}

/// First match wins: the binding that serves an address holds it, and no binding
/// registered before it does; an address that is not mapped is held by none.
pub proof fn lemma_slot(bus: BusModel, addr: u16)
    ensures
        0 <= bus.slot(addr) <= bus.bindings.len(),
        bus.mapped(addr) ==> bus.bindings[bus.slot(addr)].holds(addr),
        forall|j: int| 0 <= j < bus.slot(addr) ==> !(#[trigger] bus.bindings[j]).holds(addr),
{
    lemma_slot_from(bus, addr, 0);
}

/// A new binding serves the addresses of its range that no earlier binding
/// holds, and changes nothing for any other address.
pub proof fn lemma_bound(bus: BusModel, lo: u16, hi: u16, device: DeviceModel, addr: u16)
    ensures
        bus.bound(lo, hi, device).peek(addr) == (if !bus.mapped(addr) && lo <= addr <= hi {
            device.peek((addr - lo) as u16)
        } else {
            bus.peek(addr)
        }),
        bus.bound(lo, hi, device).mapped(addr) == (bus.mapped(addr) || lo <= addr <= hi),
{
    reveal(BusModel::peek);
    lemma_bound_slot(bus, lo, hi, device, addr, 0);
    lemma_slot(bus, addr);
    let more = bus.bound(lo, hi, device);
    if bus.mapped(addr) {
    } else if lo <= addr <= hi {
    }
}

/// Searching the bus with one more binding finds what searching without it finds,
/// and the new binding where that finds none and the new range holds the address.
proof fn lemma_bound_slot(
    bus: BusModel,
    lo: u16,
    hi: u16,
    device: DeviceModel,
    addr: u16,
    from: int,
)
    requires
        0 <= from <= bus.bindings.len(),
    ensures
        bus.bound(lo, hi, device).slot_from(addr, from) == (if bus.slot_from(addr, from)
            < bus.bindings.len() || lo <= addr <= hi {
            bus.slot_from(addr, from)
        } else {
            (bus.bindings.len() + 1) as int
        }),
    decreases bus.bindings.len() - from,
{
    let more = bus.bound(lo, hi, device);
    if from < bus.bindings.len() {
        if !bus.bindings[from].holds(addr) {
            lemma_bound_slot(bus, lo, hi, device, addr, from + 1);
        }
    } else {
        reveal_with_fuel(BusModel::slot_from, 2);
    }
}

/// `RangeInclusive::start` returns the lower bound the range was made with. Its
/// documentation leaves the value open once the range was iterated to exhaustion,
/// so nothing is claimed for such a range.
pub assume_specification<Idx>[ RangeInclusive::<Idx>::start ](r: &RangeInclusive<Idx>) -> (ret:
    &Idx)
    ensures
        !r@.exhausted ==> *ret == r@.start,
;

/// `RangeInclusive::end` returns the upper, inclusive bound the range was made
/// with; as for `start`, nothing is claimed for an exhausted range.
pub assume_specification<Idx>[ RangeInclusive::<Idx>::end ](r: &RangeInclusive<Idx>) -> (ret:
    &Idx)
    ensures
        !r@.exhausted ==> *ret == r@.end,
;

/// One registration as the bus keeps it.
struct Binding<D: Device + ?Sized> {
    lo: u16,
    hi: u16,
    device: Box<D>,
}

/// The bus, over the kind of device it holds. `Bus` alone holds devices of any
/// kind behind the `Device` interface; `Bus<Mem>` holds plain memories only.
pub struct Bus<D: Device + ?Sized = dyn Device> {
    devices: Vec<Binding<D>>,
}

impl<D: Device + ?Sized> View for Bus<D> {
    type V = BusModel;

    closed spec fn view(&self) -> BusModel {
        BusModel {
            bindings: Seq::new(
                self.devices@.len(),
                |i: int|
                    BindingModel {
                        lo: self.devices@[i].lo,
                        hi: self.devices@[i].hi,
                        device: self.devices@[i].device.model(),
                    },
            ),
        }
    }
}

impl<D: Device + ?Sized> Bus<D> {
    /// Every registered device can serve the whole of its range.
    #[verifier::type_invariant]
    spec fn fitted(&self) -> bool {
        self@.fits()
    }

    /// A bus without bindings: every address reads as zero.
    pub fn default() -> (bus: Self)
        ensures
            bus@.bindings.len() == 0,
    {
        Self { devices: Vec::new() }
    }

    /// Takes the bindings out of the bus, leaving it without any, so that they can
    /// be changed and put back as a whole.
    fn take(&mut self) -> (devices: Vec<Binding<D>>)
        ensures
            (Bus { devices })@ == old(self)@,
            (Bus { devices })@.fits(),
    {
        proof {
            use_type_invariant(&*self);
        }
        let mut taken = Self::default();
        std::mem::swap(self, &mut taken);
        taken.devices
    }

    /// Binds `range` to `device`, after all bindings made so far. Ranges may
    /// overlap; the earlier registration then wins.
    pub fn register(&mut self, range: RangeInclusive<u16>, device: Box<D>)
        requires
            !range@.exhausted,
            device.model().serves_through(range@.end - range@.start),
        ensures
            final(self)@ == old(self)@.bound(range@.start, range@.end, device.model()),
    {
        let lo: u16 = *range.start();
        let hi: u16 = *range.end();
        let ghost added = BindingModel { lo, hi, device: device.model() };
        let mut devices = self.take();
        devices.push(Binding { lo, hi, device });
        assert((Bus { devices })@.bindings =~= old(self)@.bindings.push(added));
        *self = Bus { devices };
    }

    /// Reads the byte at `addr` from the first binding that holds it; 0 where none
    /// does.
    pub fn read(&self, addr: u16) -> (value: u8)
        ensures
            value == self@.peek(addr),
    {
        proof {
            use_type_invariant(self);
        }
        let mut i: usize = 0;
        while i < self.devices.len()
            invariant
                i <= self.devices.len(),
                self@.fits(),
                self@.slot(addr) == self@.slot_from(addr, i as int),
            decreases self.devices.len() - i,
        {
            if self.devices[i].lo <= addr && addr <= self.devices[i].hi {
                reveal(BusModel::peek);
                let offset: u16 = addr - self.devices[i].lo;
                assert(self@.bindings[i as int].fits());
                return self.devices[i].device.read(offset);
            }
            i += 1;
        }
        reveal(BusModel::peek);
        0
    }

    /// Writes `value` at `addr` to the first binding that holds it; does nothing
    /// where none does.
    pub fn write(&mut self, addr: u16, value: u8)
        ensures
            final(self)@ == old(self)@.poked(addr, value),
    {
        let mut devices = self.take();
        let ghost before = Bus { devices };
        let mut i: usize = 0;
        while i < devices.len()
            invariant_except_break
                i <= devices.len(),
                (Bus { devices })@ == before@,
                before@.slot(addr) == before@.slot_from(addr, i as int),
            invariant
                before@ == old(self)@,
                before@.fits(),
            ensures
                (Bus { devices })@ == before@.poked(addr, value) || ((Bus { devices })@ == before@
                    && !before@.mapped(addr)),
                (Bus { devices })@.fits(),
            decreases devices.len() - i,
        {
            if devices[i].lo <= addr && addr <= devices[i].hi {
                reveal(BusModel::poked);
                let offset: u16 = addr - devices[i].lo;
                assert(before@.bindings[i as int].fits());
                devices[i].device.write(offset, value);
                assert((Bus { devices })@.bindings =~= before@.poked(addr, value).bindings);
                break ;
            }
            i += 1;
        }
        proof {
            reveal(BusModel::poked);
        }
        *self = Bus { devices };
    }
}

} // verus!
