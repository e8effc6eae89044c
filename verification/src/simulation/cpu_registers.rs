//! The register bank and the typed wire primitives that connect
//! components to it.
//!
//! Readers and writers are two-state machines mediated by request
//! handles: a component first declares what it wants to read or write,
//! the tick engine then observes every active wire to build the tick's
//! connection set, and only afterwards applies the requests.  This keeps
//! all reads of a tick before all writes.

use vstd::prelude::*;

use crate::ports::{PortDefns, PortSignalDirection, SignalType};
use crate::simulation::component_bank::ComponentBank;
use crate::word::{spec_bool_to_word, spec_word_to_activation, Activation, Word};

verus! {

pub type CpuRegisterAddress = usize;

pub const REGISTER_COUNT: CpuRegisterAddress = 64;

pub type CpuRegisterBank = ComponentBank<CpuRegister, REGISTER_COUNT>;

/// One register cell: its fixed address and its current word value.
#[derive(Clone, Copy, PartialEq, Eq, Debug, Structural)]
pub struct CpuRegister {
    pub address: CpuRegisterAddress,
    pub value: Word,
}

impl CpuRegisterBank {
    /// One register per address, each holding the address it sits at.
    pub open spec fn wf(self) -> bool {
        &&& self.components@.len() == REGISTER_COUNT
        &&& forall|i: int|
            0 <= i < REGISTER_COUNT ==> (#[trigger] self.components@[i]).address == i
    }

    /// The sequence of register values.
    pub open spec fn spec_values(self) -> Seq<Word> {
        self.components@.map_values(|r: CpuRegister| r.value)
    }

    pub fn new() -> (r: CpuRegisterBank)
        ensures
            r.wf(),
            forall|i: int| 0 <= i < REGISTER_COUNT ==> r.spec_values()[i] == 0,
    {
        let mut components: Vec<CpuRegister> = Vec::new();
        let mut address: usize = 0;
        while address < REGISTER_COUNT
            invariant
                address <= REGISTER_COUNT,
                components@.len() == address,
                forall|i: int|
                    0 <= i < address ==> #[trigger] components@[i] == (CpuRegister {
                        address: i as usize,
                        value: 0,
                    }),
            decreases REGISTER_COUNT - address,
        {
            components.push(CpuRegister::new(address));
            address += 1;
        }
        ComponentBank { components }
    }
}

/// Port metadata of one register: a data input and a data output.
#[derive(Clone, Copy, PartialEq, Eq, Debug, Structural)]
pub struct CpuRegisterPortsData {
    pub input: PortDefns,
    pub output: PortDefns,
}

impl CpuRegisterPortsData {
    pub fn get_for_port(&self, port_name: &CpuRegisterPortName) -> (r: &PortDefns)
        ensures
            r == match port_name {
                CpuRegisterPortName::Input => &self.input,
                CpuRegisterPortName::Output => &self.output,
            },
    {
        match port_name {
            CpuRegisterPortName::Input => &self.input,
            CpuRegisterPortName::Output => &self.output,
        }
    }
}

impl CpuRegister {
    pub fn new(address: CpuRegisterAddress) -> (r: CpuRegister)
        ensures
            r == (CpuRegister { address, value: 0 }),
    {
        CpuRegister { address, value: 0 }
    }

    /// Both ports of a register are always live data ports.
    pub fn ports_info(&self) -> (r: CpuRegisterPortsData)
        ensures
            r.input == (PortDefns {
                active: true,
                signal_dir: PortSignalDirection::Input,
                signal_type: SignalType::Data,
            }),
            r.output == (PortDefns {
                active: true,
                signal_dir: PortSignalDirection::Output,
                signal_type: SignalType::Data,
            }),
    {
        CpuRegisterPortsData {
            input: PortDefns {
                active: true,
                signal_dir: PortSignalDirection::Input,
                signal_type: SignalType::Data,
            },
            output: PortDefns {
                active: true,
                signal_dir: PortSignalDirection::Output,
                signal_type: SignalType::Data,
            },
        }
    }

    pub fn write(&mut self, new_value: Word)
        ensures
            *final(self) == (CpuRegister { address: old(self).address, value: new_value }),
    {
        self.value = new_value;
    }

    pub fn read(&self) -> (w: Word)
        ensures
            w == self.value,
    {
        self.value
    }
}

#[derive(Clone, Copy, PartialEq, Eq, Debug, Hash, Structural)]
pub enum CpuRegisterPortName {
    Input,
    Output,
}

impl CpuRegisterPortName {
    /// Both register ports, in declaration order.
    pub fn iter_ports() -> (v: Vec<CpuRegisterPortName>)
        ensures
            v@ == seq![CpuRegisterPortName::Input, CpuRegisterPortName::Output],
    {
        let v = vec![CpuRegisterPortName::Input, CpuRegisterPortName::Output];
        proof {
            assert(v@ =~= seq![CpuRegisterPortName::Input, CpuRegisterPortName::Output]);
        }
        v
    }
}

/// A data-reading wire.  Once configured to a source register it caches
/// the value the tick engine hands it; `read` exposes the cache only once
/// it is filled.
#[derive(Clone, Copy, PartialEq, Eq, Debug, Structural)]
pub enum CpuRegisterDataReader {
    Deactivated,
    Active { source: CpuRegisterAddress, value: Option<Word> },
}

impl CpuRegisterDataReader {
    /// The cached value, if the reader is active and has been satisfied.
    pub open spec fn spec_read(self) -> Option<Word> {
        match self {
            CpuRegisterDataReader::Active { source: _, value: Some(v) } => Some(v),
            _ => None,
        }
    }

    pub fn new() -> (r: CpuRegisterDataReader)
        ensures
            r == CpuRegisterDataReader::Deactivated,
    {
        CpuRegisterDataReader::Deactivated
    }

    pub fn deactivate(&mut self)
        ensures
            *final(self) == CpuRegisterDataReader::Deactivated,
    {
        *self = CpuRegisterDataReader::Deactivated;
    }

    pub fn is_active(&self) -> (r: bool)
        ensures
            r == (*self is Active),
    {
        matches!(self, CpuRegisterDataReader::Active { .. })
    }

    /// Point the reader at a source register, emptying its cache, or
    /// disconnect it.
    pub fn set_connection(&mut self, target: Option<CpuRegisterAddress>)
        ensures
            *final(self) == match target {
                Some(a) => CpuRegisterDataReader::Active { source: a, value: None },
                None => CpuRegisterDataReader::Deactivated,
            },
    {
        if let Some(target) = target {
            *self = CpuRegisterDataReader::Active { source: target, value: None };
        } else {
            *self = CpuRegisterDataReader::Deactivated;
        }
    }

    pub fn read(&self) -> (r: Option<Word>)
        ensures
            r == self.spec_read(),
    {
        if let CpuRegisterDataReader::Active { source: _, value: Some(v) } = self {
            Some(*v)
        } else {
            None
        }
    }

    /// The pending read request, if the reader is active.
    pub fn get_read_request(&self) -> (r: Option<CpuRegisterReadRequest>)
        ensures
            r == match *self {
                CpuRegisterDataReader::Active { source, value: _ } => Some(
                    CpuRegisterReadRequest { register_addr: source },
                ),
                CpuRegisterDataReader::Deactivated => None::<CpuRegisterReadRequest>,
            },
    {
        if let CpuRegisterDataReader::Active { source, value: _ } = self {
            Some(CpuRegisterReadRequest { register_addr: *source })
        } else {
            None
        }
    }

    /// Fill the cache with the value the tick engine read for this wire.
    pub fn store_read_result(&mut self, value: Word)
        requires
            *old(self) is Active,
        ensures
            *final(self) == match *old(self) {
                CpuRegisterDataReader::Active { source, value: _ } => CpuRegisterDataReader::Active {
                    source,
                    value: Some(value),
                },
                CpuRegisterDataReader::Deactivated => *old(self),
            },
    {
        if let CpuRegisterDataReader::Active { source, value: _ } = self {
            *self = CpuRegisterDataReader::Active { source: *source, value: Some(value) };
        }
    }
}

/// A data-writing wire.  `write` stores a pending value; the tick engine
/// later collects the write request and applies it to the register bank.
#[derive(Clone, Copy, PartialEq, Eq, Debug, Structural)]
pub enum CpuRegisterDataWriter {
    Deactivated,
    Connected { target: CpuRegisterAddress, value: Option<Word> },
}

impl CpuRegisterDataWriter {
    pub fn new() -> (r: CpuRegisterDataWriter)
        ensures
            r == CpuRegisterDataWriter::Deactivated,
    {
        CpuRegisterDataWriter::Deactivated
    }

    pub fn deactivate(&mut self)
        ensures
            *final(self) == CpuRegisterDataWriter::Deactivated,
    {
        *self = CpuRegisterDataWriter::Deactivated;
    }

    pub fn is_active(&self) -> (r: bool)
        ensures
            r == (*self is Connected),
    {
        matches!(self, CpuRegisterDataWriter::Connected { .. })
    }

    /// Point the writer at a target register, emptying any pending value,
    /// or disconnect it.
    pub fn set_connection(&mut self, target: Option<CpuRegisterAddress>)
        ensures
            *final(self) == match target {
                Some(a) => CpuRegisterDataWriter::Connected { target: a, value: None },
                None => CpuRegisterDataWriter::Deactivated,
            },
    {
        if let Some(target) = target {
            *self = CpuRegisterDataWriter::Connected { target, value: None };
        } else {
            *self = CpuRegisterDataWriter::Deactivated;
        }
    }

    /// Store a pending value.  A disconnected writer ignores the write.
    pub fn write(&mut self, value: Word)
        ensures
            *final(self) == match *old(self) {
                CpuRegisterDataWriter::Connected { target, value: _ } => CpuRegisterDataWriter::Connected {
                    target,
                    value: Some(value),
                },
                CpuRegisterDataWriter::Deactivated => *old(self),
            },
    {
        if let CpuRegisterDataWriter::Connected { target, value: _ } = self {
            *self = CpuRegisterDataWriter::Connected { target: *target, value: Some(value) };
        }
    }

    /// Drop any pending value, keeping the connection.
    pub fn clear(&mut self)
        ensures
            *final(self) == match *old(self) {
                CpuRegisterDataWriter::Connected { target, value: _ } => CpuRegisterDataWriter::Connected {
                    target,
                    value: None::<Word>,
                },
                CpuRegisterDataWriter::Deactivated => *old(self),
            },
    {
        if let CpuRegisterDataWriter::Connected { target, value: _ } = self {
            *self = CpuRegisterDataWriter::Connected { target: *target, value: None };
        }
    }

    /// The pending write request, if a value is pending.
    pub fn get_write_request(&self) -> (r: Option<CpuRegisterWriteRequest>)
        ensures
            r == match *self {
                CpuRegisterDataWriter::Connected { target, value: Some(v) } => Some(
                    CpuRegisterWriteRequest { register_addr: target, value: v },
                ),
                _ => None::<CpuRegisterWriteRequest>,
            },
    {
        if let CpuRegisterDataWriter::Connected { target, value: Some(v) } = self {
            Some(CpuRegisterWriteRequest { register_addr: *target, value: *v })
        } else {
            None
        }
    }
}

/// A pending write of one value to one register.
#[derive(Clone, Copy, PartialEq, Eq, Debug, Structural)]
pub struct CpuRegisterWriteRequest {
    pub register_addr: CpuRegisterAddress,
    pub value: Word,
}

impl CpuRegisterWriteRequest {
    /// Apply the write to the register bank.
    pub fn satisfy(self, register_bank: &mut CpuRegisterBank)
        requires
            old(register_bank).wf(),
            self.register_addr < REGISTER_COUNT,
        ensures
            final(register_bank).wf(),
            final(register_bank).components@ == old(register_bank).components@.update(
                self.register_addr as int,
                CpuRegister { address: self.register_addr, value: self.value },
            ),
    {
        let r = &mut register_bank.components[self.register_addr];
        r.write(self.value);
    }

    pub fn addr(&self) -> (a: CpuRegisterAddress)
        ensures
            a == self.register_addr,
    {
        self.register_addr
    }
}

/// A pending read of one register.
#[derive(Clone, Copy, PartialEq, Eq, Debug, Structural)]
pub struct CpuRegisterReadRequest {
    pub register_addr: CpuRegisterAddress,
}

impl CpuRegisterReadRequest {
    pub fn addr(&self) -> (a: CpuRegisterAddress)
        ensures
            a == self.register_addr,
    {
        self.register_addr
    }

    /// Read the addressed register.  The caller hands the value to the
    /// reader that raised the request via `store_read_result`.
    pub fn satisfy(self, register_bank: &CpuRegisterBank) -> (w: Word)
        requires
            register_bank.wf(),
            self.register_addr < REGISTER_COUNT,
        ensures
            w == register_bank.components@[self.register_addr as int].value,
    {
        register_bank.components[self.register_addr].value
    }
}

/// An activation-reading wire: a data reader whose cached word is exposed
/// as an activation signal.
#[derive(Clone, Copy, PartialEq, Eq, Debug, Structural)]
pub struct CpuRegisterActReader {
    pub inner: CpuRegisterDataReader,
}

impl CpuRegisterActReader {
    /// The cached activation, if the wire is active and satisfied.
    pub open spec fn spec_read(self) -> Option<Activation> {
        match self.inner.spec_read() {
            Some(w) => Some(spec_word_to_activation(w)),
            None => None,
        }
    }

    pub fn new() -> (r: CpuRegisterActReader)
        ensures
            r.inner == CpuRegisterDataReader::Deactivated,
    {
        CpuRegisterActReader { inner: CpuRegisterDataReader::new() }
    }

    pub fn deactivate(&mut self)
        ensures
            final(self).inner == CpuRegisterDataReader::Deactivated,
    {
        self.inner.deactivate();
    }

    pub fn is_active(&self) -> (r: bool)
        ensures
            r == (self.inner is Active),
    {
        self.inner.is_active()
    }

    pub fn set_connection(&mut self, target: Option<CpuRegisterAddress>)
        ensures
            final(self).inner == match target {
                Some(a) => CpuRegisterDataReader::Active { source: a, value: None },
                None => CpuRegisterDataReader::Deactivated,
            },
    {
        self.inner.set_connection(target);
    }

    pub fn get_read_request(&self) -> (r: Option<CpuRegisterReadRequest>)
        ensures
            r == match self.inner {
                CpuRegisterDataReader::Active { source, value: _ } => Some(
                    CpuRegisterReadRequest { register_addr: source },
                ),
                CpuRegisterDataReader::Deactivated => None::<CpuRegisterReadRequest>,
            },
    {
        self.inner.get_read_request()
    }

    pub fn store_read_result(&mut self, value: Word)
        requires
            old(self).inner is Active,
        ensures
            final(self).inner == match old(self).inner {
                CpuRegisterDataReader::Active { source, value: _ } => CpuRegisterDataReader::Active {
                    source,
                    value: Some(value),
                },
                CpuRegisterDataReader::Deactivated => old(self).inner,
            },
    {
        self.inner.store_read_result(value);
    }

    pub fn read(&self) -> (r: Option<Activation>)
        ensures
            r == self.spec_read(),
    {
        match self.inner.read() {
            Some(v) => Some(
                if v != 0 {
                    Activation::Active
                } else {
                    Activation::Inactive
                },
            ),
            None => None,
        }
    }
}

/// An activation-writing wire: a data writer fed with the word encoding
/// of a boolean.
#[derive(Clone, Copy, PartialEq, Eq, Debug, Structural)]
pub struct CpuRegisterActWriter {
    pub inner: CpuRegisterDataWriter,
}

impl CpuRegisterActWriter {
    pub fn new() -> (r: CpuRegisterActWriter)
        ensures
            r.inner == CpuRegisterDataWriter::Deactivated,
    {
        CpuRegisterActWriter { inner: CpuRegisterDataWriter::Deactivated }
    }

    pub fn set_connection(&mut self, target: Option<CpuRegisterAddress>)
        ensures
            final(self).inner == match target {
                Some(a) => CpuRegisterDataWriter::Connected { target: a, value: None },
                None => CpuRegisterDataWriter::Deactivated,
            },
    {
        self.inner.set_connection(target);
    }

    pub fn get_write_request(&self) -> (r: Option<CpuRegisterWriteRequest>)
        ensures
            r == match self.inner {
                CpuRegisterDataWriter::Connected { target, value: Some(v) } => Some(
                    CpuRegisterWriteRequest { register_addr: target, value: v },
                ),
                _ => None::<CpuRegisterWriteRequest>,
            },
    {
        self.inner.get_write_request()
    }

    pub fn deactivate(&mut self)
        ensures
            final(self).inner == CpuRegisterDataWriter::Deactivated,
    {
        self.inner.deactivate();
    }

    pub fn is_active(&self) -> (r: bool)
        ensures
            r == (self.inner is Connected),
    {
        self.inner.is_active()
    }

    pub fn clear(&mut self)
        ensures
            final(self).inner == match old(self).inner {
                CpuRegisterDataWriter::Connected { target, value: _ } => CpuRegisterDataWriter::Connected {
                    target,
                    value: None::<Word>,
                },
                CpuRegisterDataWriter::Deactivated => old(self).inner,
            },
    {
        self.inner.clear();
    }

    /// Store the word encoding of a boolean as the pending value.
    pub fn write(&mut self, value: bool)
        ensures
            final(self).inner == match old(self).inner {
                CpuRegisterDataWriter::Connected { target, value: _ } => CpuRegisterDataWriter::Connected {
                    target,
                    value: Some(spec_bool_to_word(value)),
                },
                CpuRegisterDataWriter::Deactivated => old(self).inner,
            },
    {
        let w: Word = if value {
            -1
        } else {
            0
        };
        self.inner.write(w);
    }
}

} // verus!
