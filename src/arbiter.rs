use vstd::prelude::*;

verus! {

#[derive(Debug, Clone, Copy, PartialEq, Eq, Structural)]
pub enum Polarity {
    IdleLow,
    IdleHigh,
}

#[derive(Debug, Clone, Copy, PartialEq, Eq, Structural)]
pub enum Phase {
    CaptureOnFirstTransition,
    CaptureOnSecondTransition,
}

/// Electrical settings that one device needs on the shared bus.
#[derive(Debug, Clone, Copy, PartialEq, Eq, Structural)]
pub struct SpiConfig {
    pub frequency: u32,
    pub polarity: Polarity,
    pub phase: Phase,
}

#[derive(Debug, Clone, Copy, PartialEq, Eq, Structural)]
pub enum BusError {
    /// Another device holds the bus; the caller waits and tries again.
    Busy,
    /// No device is registered under this number.
    UnknownDevice,
    /// The caller does not hold the bus.
    NotHolder,
}

/// Bytes to exchange on the bus, with the settings the bus is in.
pub struct Frame {
    pub config: SpiConfig,
    pub bytes: Vec<u8>,
}

/// Abstract state of a shared bus.
pub struct BusModel {
    /// Settings of each registered device, by device number.
    pub devices: Seq<SpiConfig>,
    /// The device inside a transaction, if any.
    pub holder: Option<int>,
    /// Settings last applied to the bus.
    pub applied: Option<SpiConfig>,
}

impl BusModel {
    pub open spec fn wf(self) -> bool {
        match self.holder {
            Some(d) => 0 <= d < self.devices.len() && self.applied == Some(self.devices[d]),
            None => true,
        }
    }

    pub open spec fn begin_result(self, d: int) -> Result<SpiConfig, BusError> {
        if !(0 <= d < self.devices.len()) {
            Err(BusError::UnknownDevice)
        } else if self.holder is Some {
            Err(BusError::Busy)
        } else {
            Ok(self.devices[d])
        }
    }

    /// Taking the bus applies the device's own settings to it.
    pub open spec fn after_begin(self, d: int) -> BusModel {
        if self.begin_result(d) is Ok {
            BusModel { holder: Some(d), applied: Some(self.devices[d]), ..self }
        } else {
            self
        }
    }

    pub open spec fn transfer_result(self, d: int) -> Result<SpiConfig, BusError> {
        if self.holder == Some(d) && self.applied is Some {
            Ok(self.applied.unwrap())
        } else {
            Err(BusError::NotHolder)
        }
    }

    pub open spec fn end_result(self, d: int) -> Result<(), BusError> {
        if self.holder == Some(d) {
            Ok(())
        } else {
            Err(BusError::NotHolder)
        }
    }

    pub open spec fn after_end(self, d: int) -> BusModel {
        if self.holder == Some(d) {
            BusModel { holder: None, ..self }
        } else {
            self
        }
    }
}

/// One physical bus shared by several devices, one transaction at a time.
pub struct SharedBus {
    devices: Vec<SpiConfig>,
    holder: Option<usize>,
    applied: Option<SpiConfig>,
}

impl View for SharedBus {
    type V = BusModel;

    closed spec fn view(&self) -> BusModel {
        BusModel {
            devices: self.devices@,
            holder: match self.holder {
                Some(d) => Some(d as int),
                None => None,
            },
            applied: self.applied,
        }
    }
}

impl SharedBus {
    pub closed spec fn wf(&self) -> bool {
        self@.wf()
    }

    /// A free bus with no device registered and nothing applied yet.
    pub fn new() -> (r: SharedBus)
        ensures
            r.wf(),
            r@.devices.len() == 0,
            r@.holder is None,
            r@.applied is None,
    {
        SharedBus { devices: Vec::new(), holder: None, applied: None }
    }

    /// Register a device with its settings; returns its device number.
    pub fn add_device(&mut self, config: SpiConfig) -> (r: usize)
        requires
            old(self).wf(),
        ensures
            final(self).wf(),
            r == old(self)@.devices.len(),
            final(self)@ == (BusModel { devices: old(self)@.devices.push(config), ..old(self)@ }),
    {
        let r = self.devices.len();
        self.devices.push(config);
        r
    }

    pub fn is_busy(&self) -> (r: bool)
        ensures
            r == self@.holder is Some,
    {
        self.holder.is_some()
    }

    /// Settings currently applied to the bus.
    pub fn applied(&self) -> (r: Option<SpiConfig>)
        ensures
            r == self@.applied,
    {
        self.applied
    }

    /// Take the bus for device `d` and apply its settings; `Busy` while
    /// another transaction is open.
    pub fn begin_transaction(&mut self, d: usize) -> (r: Result<SpiConfig, BusError>)
        requires
            old(self).wf(),
        ensures
            final(self).wf(),
            r == old(self)@.begin_result(d as int),
            final(self)@ == old(self)@.after_begin(d as int),
    {
        if d >= self.devices.len() {
            return Err(BusError::UnknownDevice);
        }
        if self.holder.is_some() {
            return Err(BusError::Busy);
        }
        let config = self.devices[d];
        self.holder = Some(d);
        self.applied = Some(config);
        Ok(config)
    }

    /// Frame `bytes` for device `d` under the settings of its open transaction.
    pub fn transfer(&self, d: usize, bytes: &Vec<u8>) -> (r: Result<Frame, BusError>)
        requires
            self.wf(),
        ensures
            match r {
                Ok(f) => self@.transfer_result(d as int) == Ok::<SpiConfig, BusError>(f.config)
                    && f.bytes@ == bytes@,
                Err(e) => self@.transfer_result(d as int) == Err::<SpiConfig, BusError>(e),
            },
    {
        match self.holder {
            Some(h) => {
                if h == d {
                    match self.applied {
                        Some(config) => {
                            let mut out: Vec<u8> = Vec::new();
                            let mut i: usize = 0;
                            while i < bytes.len()
                                invariant
                                    i <= bytes.len(),
                                    out@ == bytes@.take(i as int),
                                decreases bytes.len() - i,
                            {
                                out.push(bytes[i]);
                                i = i + 1;
                                assert(out@ =~= bytes@.take(i as int));
                            }
                            assert(out@ =~= bytes@);
                            Ok(Frame { config, bytes: out })
                        },
                        None => Err(BusError::NotHolder),
                    }
                } else {
                    Err(BusError::NotHolder)
                }
            },
            None => Err(BusError::NotHolder),
        }
    }

    /// Release the bus held by device `d`.
    pub fn end_transaction(&mut self, d: usize) -> (r: Result<(), BusError>)
        requires
            old(self).wf(),
        ensures
            final(self).wf(),
            r == old(self)@.end_result(d as int),
            final(self)@ == old(self)@.after_end(d as int),
    {
        match self.holder {
            Some(h) => {
                if h == d {
                    self.holder = None;
                    Ok(())
                } else {
                    Err(BusError::NotHolder)
                }
            },
            None => Err(BusError::NotHolder),
        }
    }
}

/// While device `a` holds the bus, any other device is refused both the bus
/// and transfers; once `a` ends its transaction, the other device gets it.
pub proof fn lemma_exclusive_until_released(m: BusModel, a: int, b: int)
    requires
        m.wf(),
        m.holder == Some(a),
        0 <= b < m.devices.len(),
        a != b,
    ensures
        m.begin_result(b) == Err::<SpiConfig, BusError>(BusError::Busy),
        m.after_begin(b) == m,
        m.transfer_result(b) == Err::<SpiConfig, BusError>(BusError::NotHolder),
        m.after_end(a).begin_result(b) == Ok::<SpiConfig, BusError>(m.devices[b]),
{
}

/// Whoever held the bus before, the first transfer of device `b` after it
/// takes the free bus runs under `b`'s own settings.
pub proof fn lemma_no_stale_configuration(m: BusModel, b: int)
    requires
        m.wf(),
        m.holder is None,
        0 <= b < m.devices.len(),
    ensures
        m.after_begin(b).wf(),
        m.after_begin(b).applied == Some(m.devices[b]),
        m.after_begin(b).transfer_result(b) == Ok::<SpiConfig, BusError>(m.devices[b]),
{
}

} // verus!
