//! Driver for an infrared thermometer attached over SMBus.
//!
//! The bus transaction itself happens outside this library: starting a
//! measurement yields the [`SMBusRequest`] the surrounding kernel must put
//! on the wire, and the bus's completion interrupt arrives as a call to
//! [`Mlx90614SMBus::command_complete`] carrying the bytes read.  The driver
//! is a linear state machine: idle, probing for presence, or reading one of
//! the two temperatures.

use crate::driver::{CommandResult, ErrorCode, ReturnCode, Upcall};
use vstd::prelude::*;

verus! {

/// Registers of the thermometer.
#[derive(Clone, Copy, PartialEq, Eq, Structural, Debug)]
pub enum Mlx90614Registers {
    Raw1,
    Raw2,
    Ta,
    Tobj1,
    Tobj2,
    Emissivity,
    Config,
}

impl Mlx90614Registers {
    /// The register's bus address.
    pub open spec fn spec_address(self) -> u8 {
        match self {
            Mlx90614Registers::Raw1 => 0x04,
            Mlx90614Registers::Raw2 => 0x05,
            Mlx90614Registers::Ta => 0x06,
            Mlx90614Registers::Tobj1 => 0x07,
            Mlx90614Registers::Tobj2 => 0x08,
            Mlx90614Registers::Emissivity => 0x24,
            Mlx90614Registers::Config => 0x25,
        }
    }

    pub fn address(self) -> (r: u8)
        ensures
            r == self.spec_address(),
    {
        match self {
            Mlx90614Registers::Raw1 => 0x04,
            Mlx90614Registers::Raw2 => 0x05,
            Mlx90614Registers::Ta => 0x06,
            Mlx90614Registers::Tobj1 => 0x07,
            Mlx90614Registers::Tobj2 => 0x08,
            Mlx90614Registers::Emissivity => 0x24,
            Mlx90614Registers::Config => 0x25,
        }
    }
}

/// What the driver is waiting for on the bus.
#[derive(Clone, Copy, PartialEq, Eq, Structural, Debug)]
pub enum State {
    Idle,
    IsPresent,
    ReadAmbientTemp,
    ReadObjTemp,
}

/// Outcome of a bus transaction, as the bus reports it.
#[derive(Clone, Copy, PartialEq, Eq, Structural, Debug)]
pub enum I2CError {
    CommandComplete,
    AddressNak,
    DataNak,
    ArbitrationLost,
    NotSupported,
}

/// A write-then-read transaction the kernel must perform on the bus: send
/// the register address, then read back `read_len` bytes.
#[derive(Clone, Copy, PartialEq, Eq, Structural, Debug)]
pub struct SMBusRequest {
    pub register: u8,
    pub write_len: usize,
    pub read_len: usize,
}

/// A notification owed to a subscriber.
#[derive(Clone, Copy, PartialEq, Eq, Structural, Debug)]
pub struct ScheduledUpcall {
    pub target: Upcall,
    pub value: usize,
}

/// The raw sensor word behind `bytes[0]` and `bytes[1]`, little-endian.
pub open spec fn spec_raw_reading(b0: u8, b1: u8) -> int {
    b0 + 256 * b1
}

/// The sensor reports fiftieths of a kelvin; twice the raw value, less
/// 273.00 degrees in centidegrees, is the temperature in centidegrees
/// Celsius.
pub open spec fn spec_centi_celsius(b0: u8, b1: u8) -> int {
    spec_raw_reading(b0, b1) * 2 - 27300
}

/// The thermometer driver: one outstanding transaction at a time.
pub struct Mlx90614SMBus {
    /// Subscriber notified with each reading.
    pub callback: Upcall,
    /// The client of the temperature-sensor interface, when set.
    pub temperature_client: Option<Upcall>,
    /// Whether the driver still holds its bus buffer; it is lent to the
    /// bus for the duration of a transaction.
    pub buffer_held: bool,
    pub state: State,
}

impl Mlx90614SMBus {
    /// Holding the buffer and being idle go together once every
    /// transaction completes.
    pub open spec fn wf(self) -> bool {
        self.buffer_held <==> self.state is Idle
    }

    pub fn new() -> (d: Mlx90614SMBus)
        ensures
            d.wf(),
            d.state is Idle,
            d.callback.id == 0,
            d.temperature_client is None,
            d.buffer_held,
    {
        Mlx90614SMBus {
            callback: Upcall { id: 0 },
            temperature_client: None,
            buffer_held: true,
            state: State::Idle,
        }
    }

    /// Starts a presence probe: read one byte of the first raw-data
    /// register; the probe succeeds when the device answers with its
    /// signature value.
    pub fn is_present(&mut self) -> (r: SMBusRequest)
        requires
            old(self).wf(),
            old(self).state is Idle,
        ensures
            final(self).wf(),
            final(self).state is IsPresent,
            final(self).callback == old(self).callback,
            final(self).temperature_client == old(self).temperature_client,
            r == (SMBusRequest {
                register: Mlx90614Registers::Raw1.spec_address(),
                write_len: 1,
                read_len: 1,
            }),
    {
        self.state = State::IsPresent;
        self.buffer_held = false;
        SMBusRequest { register: Mlx90614Registers::Raw1.address(), write_len: 1, read_len: 1 }
    }

    /// Starts reading the ambient temperature register.
    pub fn read_ambient_temperature(&mut self) -> (r: SMBusRequest)
        requires
            old(self).wf(),
            old(self).state is Idle,
        ensures
            final(self).wf(),
            final(self).state is ReadAmbientTemp,
            final(self).callback == old(self).callback,
            final(self).temperature_client == old(self).temperature_client,
            r == (SMBusRequest {
                register: Mlx90614Registers::Ta.spec_address(),
                write_len: 1,
                read_len: 1,
            }),
    {
        self.state = State::ReadAmbientTemp;
        self.buffer_held = false;
        SMBusRequest { register: Mlx90614Registers::Ta.address(), write_len: 1, read_len: 1 }
    }

    /// Starts reading the object temperature register.
    pub fn read_object_temperature(&mut self) -> (r: SMBusRequest)
        requires
            old(self).wf(),
            old(self).state is Idle,
        ensures
            final(self).wf(),
            final(self).state is ReadObjTemp,
            final(self).callback == old(self).callback,
            final(self).temperature_client == old(self).temperature_client,
            r == (SMBusRequest {
                register: Mlx90614Registers::Tobj1.spec_address(),
                write_len: 1,
                read_len: 2,
            }),
    {
        self.state = State::ReadObjTemp;
        self.buffer_held = false;
        SMBusRequest { register: Mlx90614Registers::Tobj1.address(), write_len: 1, read_len: 2 }
    }

    /// Handles a completed bus transaction carrying the bytes read.  The
    /// first result is the reading handed to the temperature client, the
    /// second the notification owed to the subscriber.
    ///
    /// A reading below 273.00 degrees of raw value would make the
    /// conversion negative; the sensor cannot report one, so it is left out
    /// here.
    pub fn command_complete(&mut self, b0: u8, b1: u8, error: I2CError) -> (r: (
        Option<usize>,
        Option<ScheduledUpcall>,
    ))
        requires
            old(self).wf(),
            (old(self).state is ReadAmbientTemp || old(self).state is ReadObjTemp) && error
                is CommandComplete ==> spec_centi_celsius(b0, b1) >= 0,
        ensures
            final(self).wf(),
            final(self).state is Idle,
            final(self).buffer_held,
            final(self).callback == old(self).callback,
            final(self).temperature_client == old(self).temperature_client,
            old(self).state is Idle ==> r == (None::<usize>, None::<ScheduledUpcall>),
            old(self).state is IsPresent ==> r.0 is None && r.1 == Some(
                ScheduledUpcall {
                    target: old(self).callback,
                    value: (if error is CommandComplete && b0 == 60 {
                        1usize
                    } else {
                        0usize
                    }),
                },
            ),
            (old(self).state is ReadAmbientTemp || old(self).state is ReadObjTemp) && error
                is CommandComplete ==> {
                let temp = spec_centi_celsius(b0, b1);
                &&& r.0 == (if old(self).temperature_client is Some {
                    Some(temp as usize)
                } else {
                    None::<usize>
                })
                &&& r.1 == Some(ScheduledUpcall { target: old(self).callback, value: temp as usize })
            },
            (old(self).state is ReadAmbientTemp || old(self).state is ReadObjTemp) && !(error
                is CommandComplete) ==> {
                &&& r.0 == (if old(self).temperature_client is Some {
                    Some(0usize)
                } else {
                    None::<usize>
                })
                &&& r.1 == Some(ScheduledUpcall { target: old(self).callback, value: 0usize })
            },
    {
        match self.state {
            State::Idle => {
                self.buffer_held = true;
                (None, None)
            },
            State::IsPresent => {
                let present = match error {
                    I2CError::CommandComplete => b0 == 60,
                    _ => false,
                };
                self.buffer_held = true;
                self.state = State::Idle;
                let value: usize = if present {
                    1
                } else {
                    0
                };
                (None, Some(ScheduledUpcall { target: self.callback, value }))
            },
            State::ReadAmbientTemp | State::ReadObjTemp => {
                let complete = match error {
                    I2CError::CommandComplete => true,
                    _ => false,
                };
                let value: usize = if complete {
                    // Convert to centidegrees Celsius.
                    (b0 as usize + 256 * (b1 as usize)) * 2 - 27300
                } else {
                    0
                };
                let client_value = match self.temperature_client {
                    Some(_) => Some(value),
                    None => None,
                };
                self.buffer_held = true;
                self.state = State::Idle;
                (client_value, Some(ScheduledUpcall { target: self.callback, value }))
            },
        }
    }

    /// Commands: 0 presence check of the driver itself; 1 probe the sensor;
    /// 2 read the ambient temperature; 3 read the object temperature.  A
    /// measurement can only start while the bus is idle.
    pub fn command(&mut self, command_num: usize, _data1: usize, _data2: usize, _caller_id: usize)
        -> (r: (CommandResult, Option<SMBusRequest>))
        requires
            old(self).wf(),
        ensures
            final(self).wf(),
            final(self).callback == old(self).callback,
            final(self).temperature_client == old(self).temperature_client,
            command_num == 0 ==> *final(self) == *old(self) && r.0.value()
                == crate::driver::GenericSyscallReturnValue::Success && r.1 is None,
            1 <= command_num <= 3 && !(old(self).state is Idle) ==> *final(self) == *old(self)
                && r.0.value() == crate::driver::GenericSyscallReturnValue::Failure(ErrorCode::Busy)
                && r.1 is None,
            1 <= command_num <= 3 && old(self).state is Idle ==> r.0.value()
                == crate::driver::GenericSyscallReturnValue::Success && r.1 is Some,
            command_num == 1 && old(self).state is Idle ==> final(self).state is IsPresent,
            command_num == 2 && old(self).state is Idle ==> final(self).state is ReadAmbientTemp,
            command_num == 3 && old(self).state is Idle ==> final(self).state is ReadObjTemp,
            command_num > 3 ==> *final(self) == *old(self) && r.0.value()
                == crate::driver::GenericSyscallReturnValue::Failure(ErrorCode::Unsupported) && r.1
                is None,
    {
        if command_num == 0 {
            return (CommandResult::success(), None);
        }
        if command_num >= 1 && command_num <= 3 {
            let idle = match self.state {
                State::Idle => true,
                _ => false,
            };
            if !idle {
                return (CommandResult::failure(ErrorCode::Busy), None);
            }
            let request = if command_num == 1 {
                self.is_present()
            } else if command_num == 2 {
                self.read_ambient_temperature()
            } else {
                self.read_object_temperature()
            };
            return (CommandResult::success(), Some(request));
        }
        (CommandResult::failure(ErrorCode::Unsupported), None)
    }

    /// Registers the one-shot reading subscriber, handing back the previous
    /// one.
    pub fn subscribe(&mut self, subscribe_num: usize, callback: Upcall, _app_id: usize) -> (r:
        Result<Upcall, (Upcall, ErrorCode)>)
        requires
            old(self).wf(),
        ensures
            final(self).wf(),
            final(self).state == old(self).state,
            final(self).temperature_client == old(self).temperature_client,
            subscribe_num == 0 ==> r == Ok::<Upcall, (Upcall, ErrorCode)>(old(self).callback)
                && final(self).callback == callback,
            subscribe_num != 0 ==> r == Err::<Upcall, _>((callback, ErrorCode::Unsupported))
                && final(self).callback == old(self).callback,
    {
        if subscribe_num == 0 {
            let previous = self.callback;
            self.callback = callback;
            Ok(previous)
        } else {
            Err((callback, ErrorCode::Unsupported))
        }
    }

    /// Sets the client of the temperature-sensor interface.
    pub fn set_client(&mut self, temperature_client: Upcall)
        requires
            old(self).wf(),
        ensures
            final(self).wf(),
            final(self).state == old(self).state,
            final(self).callback == old(self).callback,
            final(self).temperature_client == Some(temperature_client),
    {
        self.temperature_client = Some(temperature_client);
    }

    /// The temperature-sensor interface: one object-temperature reading.
    pub fn read_temperature(&mut self) -> (r: (ReturnCode, SMBusRequest))
        requires
            old(self).wf(),
            old(self).state is Idle,
        ensures
            final(self).wf(),
            final(self).state is ReadObjTemp,
            final(self).callback == old(self).callback,
            final(self).temperature_client == old(self).temperature_client,
            r.0 == ReturnCode::Success,
    {
        let request = self.read_object_temperature();
        (ReturnCode::Success, request)
    }
}

} // verus!
