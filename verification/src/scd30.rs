use vstd::prelude::*;

use crate::bus::{Bus, Transaction, TransportError};
use crate::checksum::{crc8, crc8_compute};
use crate::data::{be_u16, Data, decode_measurement, decode_measurement_spec};
use crate::firmware_version::FirmwareVersion;

verus! {

/// Fixed 7-bit bus address of the sensor.
pub const DEFAULT_ADDRESS: u8 = 0x61;

/// Opcode of the firmware-version query. The query carries no argument, so no
/// checksum byte follows it.
pub open spec fn firmware_version_command() -> Seq<u8> {
    seq![0xd1u8, 0x00u8]
}

/// Opcode of the data-ready poll.
pub open spec fn data_ready_command() -> Seq<u8> {
    seq![0x02u8, 0x02u8]
}

/// Opcode of the measurement read-out.
pub open spec fn read_measurement_command() -> Seq<u8> {
    seq![0x03u8, 0x00u8]
}

/// The full frame that starts continuous measurement: opcode 0x0010, the
/// pressure compensation as a big-endian 16-bit argument, and the CRC-8
/// checksum over those two argument bytes.
pub open spec fn start_measurement_frame(pressure: u16) -> Seq<u8> {
    let hi = (pressure / 0x100) as u8;
    let lo = (pressure % 0x100) as u8;
    seq![0x00u8, 0x10u8, hi, lo, crc8(seq![hi, lo])]
}

/// Every argument-carrying frame carries the checksum: the start frame is the
/// opcode, the argument big-endian (so the argument is recoverable from the
/// frame), and, as its last byte, exactly the CRC-8 over the two argument
/// bytes — for every argument, not just the tested ones.
pub proof fn lemma_start_frame_checksum(pressure: u16)
    ensures
        start_measurement_frame(pressure).len() == 5,
        start_measurement_frame(pressure)[0] == 0x00u8,
        start_measurement_frame(pressure)[1] == 0x10u8,
        be_u16(start_measurement_frame(pressure)[2], start_measurement_frame(pressure)[3])
            == pressure,
        start_measurement_frame(pressure)[4] == crc8(
            seq![start_measurement_frame(pressure)[2], start_measurement_frame(pressure)[3]],
        ),
{
}

/// The sensor's protocol codec: it owns the bus for the lifetime of the
/// sampling task's critical section and translates sensor semantics into bus
/// transactions and back.
pub struct SCD30<B: Bus> {
    bus: B,
}

impl<B: Bus> SCD30<B> {
    /// The transactions this codec has attempted on its bus, newest last.
    pub closed spec fn log(&self) -> Seq<Transaction> {
        self.bus.log()
    }

    pub fn new(bus: B) -> (s: Self)
        ensures
            s.log() == bus.log(),
    {
        SCD30 { bus }
    }

    /// Borrow of the underlying bus, to inspect a simulated transport.
    pub fn bus(&self) -> (b: &B)
        ensures
            b.log() == self.log(),
    {
        &self.bus
    }

    /// Query the sensor's firmware revision: write the fixed two-byte opcode,
    /// read two bytes, and take them as the major and minor version.
    pub fn get_firmware_version(&mut self) -> (r: Result<FirmwareVersion, TransportError>)
        ensures
            final(self).log().subrange(0, old(self).log().len() as int) == old(self).log(),
            old(self).log().len() + 1 <= final(self).log().len() <= old(self).log().len() + 2,
            final(self).log()[old(self).log().len() as int] matches Transaction::Write {
                addr,
                data,
            } && addr == DEFAULT_ADDRESS && data == firmware_version_command(),
            r matches Ok(fw) ==> final(self).log().len() == old(self).log().len() + 2
                && (final(self).log().last() matches Transaction::Read { addr, data }
                    && addr == DEFAULT_ADDRESS && data.len() == 2
                    && fw == (FirmwareVersion { major: data[0], minor: data[1] })),
    {
        let ghost log0 = self.bus.log();
        let cmd: [u8; 2] = [0xd1, 0x00];
        let w = self.bus.write(DEFAULT_ADDRESS, cmd.as_slice());
        proof {
            assert(cmd@ =~= firmware_version_command());
            assert(self.bus.log().subrange(0, log0.len() as int) =~= log0);
        }
        if let Err(e) = w {
            return Err(e);
        }
        let ghost log1 = self.bus.log();
        let bytes = match self.bus.read(DEFAULT_ADDRESS, 2) {
            Ok(v) => v,
            Err(e) => {
                proof {
                    assert(self.bus.log().subrange(0, log1.len() as int)[log0.len() as int]
                        == self.bus.log()[log0.len() as int]);
                    assert(self.bus.log().subrange(0, log0.len() as int) =~= log0);
                }
                return Err(e);
            },
        };
        proof {
            assert(self.bus.log().subrange(0, log0.len() as int) =~= log0);
        }
        Ok(FirmwareVersion::new(bytes[0], bytes[1]))
    }

    /// Start continuous measurement with the given ambient-pressure
    /// compensation. The written frame always carries the checksum over the
    /// two argument bytes; the sensor silently ignores a frame without it.
    pub fn start_continuous_measurement(&mut self, pressure: u16) -> (r: Result<
        (),
        TransportError,
    >)
        ensures
            final(self).log() == old(self).log().push(
                Transaction::Write { addr: DEFAULT_ADDRESS, data: start_measurement_frame(pressure) },
            ),
    {
        let hi: u8 = (pressure / 0x100) as u8;
        let lo: u8 = (pressure % 0x100) as u8;
        let arg: [u8; 2] = [hi, lo];
        let check = crc8_compute(arg.as_slice());
        let frame: Vec<u8> = vec![0x00, 0x10, hi, lo, check];
        proof {
            assert(arg@ =~= seq![hi, lo]);
            assert(frame@ =~= start_measurement_frame(pressure));
        }
        self.bus.write(DEFAULT_ADDRESS, frame.as_slice())
    }

    /// Poll whether a fresh measurement is buffered: write the poll opcode,
    /// read two bytes, and take the big-endian 16-bit value 1 as ready; any
    /// other value means not ready.
    pub fn data_ready(&mut self) -> (r: Result<bool, TransportError>)
        ensures
            final(self).log().subrange(0, old(self).log().len() as int) == old(self).log(),
            old(self).log().len() + 1 <= final(self).log().len() <= old(self).log().len() + 2,
            final(self).log()[old(self).log().len() as int] matches Transaction::Write {
                addr,
                data,
            } && addr == DEFAULT_ADDRESS && data == data_ready_command(),
            r matches Ok(ready) ==> final(self).log().len() == old(self).log().len() + 2
                && (final(self).log().last() matches Transaction::Read { addr, data }
                    && addr == DEFAULT_ADDRESS && data.len() == 2
                    && (ready <==> be_u16(data[0], data[1]) == 1)),
    {
        let ghost log0 = self.bus.log();
        let cmd: [u8; 2] = [0x02, 0x02];
        let w = self.bus.write(DEFAULT_ADDRESS, cmd.as_slice());
        proof {
            assert(cmd@ =~= data_ready_command());
            assert(self.bus.log().subrange(0, log0.len() as int) =~= log0);
        }
        if let Err(e) = w {
            return Err(e);
        }
        let ghost log1 = self.bus.log();
        let bytes = match self.bus.read(DEFAULT_ADDRESS, 2) {
            Ok(v) => v,
            Err(e) => {
                proof {
                    assert(self.bus.log().subrange(0, log1.len() as int)[log0.len() as int]
                        == self.bus.log()[log0.len() as int]);
                    assert(self.bus.log().subrange(0, log0.len() as int) =~= log0);
                }
                return Err(e);
            },
        };
        proof {
            assert(self.bus.log().subrange(0, log0.len() as int) =~= log0);
        }
        let word: u16 = (bytes[0] as u16) * 0x100 + (bytes[1] as u16);
        Ok(word == 1)
    }

    /// Read one measurement if the sensor has one buffered.
    ///
    /// The readiness poll comes first; when it reports nothing buffered, the
    /// call returns `Ok(None)` after exactly those two transactions and
    /// issues no further ones — "no new data" is the normal outcome of most
    /// polls. When it reports ready, the read-out opcode is written and the
    /// 18-byte response is read and decoded. Any bus error propagates; no
    /// retry happens here.
    pub fn read_measurement(&mut self) -> (r: Result<Option<Data>, TransportError>)
        ensures
            final(self).log().subrange(0, old(self).log().len() as int) == old(self).log(),
            old(self).log().len() + 1 <= final(self).log().len() <= old(self).log().len() + 4,
            final(self).log()[old(self).log().len() as int] matches Transaction::Write {
                addr,
                data,
            } && addr == DEFAULT_ADDRESS && data == data_ready_command(),
            r matches Ok(None) ==> final(self).log().len() == old(self).log().len() + 2
                && (final(self).log().last() matches Transaction::Read { addr, data }
                    && addr == DEFAULT_ADDRESS && data.len() == 2 && be_u16(data[0], data[1]) != 1),
            r matches Ok(Some(m)) ==> final(self).log().len() == old(self).log().len() + 4
                && (final(self).log()[old(self).log().len() as int + 1]
                    matches Transaction::Read { addr, data }
                    && addr == DEFAULT_ADDRESS && data.len() == 2 && be_u16(data[0], data[1]) == 1)
                && (final(self).log()[old(self).log().len() as int + 2]
                    matches Transaction::Write { addr, data }
                    && addr == DEFAULT_ADDRESS && data == read_measurement_command())
                && (final(self).log().last() matches Transaction::Read { addr, data }
                    && addr == DEFAULT_ADDRESS && data.len() == 18
                    && m == decode_measurement_spec(data)),
    {
        let ghost log0 = self.log();
        let ready = match self.data_ready() {
            Ok(b) => b,
            Err(e) => {
                return Err(e);
            },
        };
        if !ready {
            return Ok(None);
        }
        let ghost log1 = self.log();
        let cmd: [u8; 2] = [0x03, 0x00];
        let w = self.bus.write(DEFAULT_ADDRESS, cmd.as_slice());
        proof {
            assert(cmd@ =~= read_measurement_command());
            assert(self.bus.log()[log0.len() as int] == log1[log0.len() as int]);
            assert(self.bus.log().subrange(0, log0.len() as int) =~= log0);
        }
        if let Err(e) = w {
            return Err(e);
        }
        let ghost log2 = self.bus.log();
        let bytes = match self.bus.read(DEFAULT_ADDRESS, 18) {
            Ok(v) => v,
            Err(e) => {
                proof {
                    assert(self.bus.log().subrange(0, log2.len() as int)[log0.len() as int]
                        == self.bus.log()[log0.len() as int]);
                    assert(self.bus.log().subrange(0, log0.len() as int) =~= log0);
                }
                return Err(e);
            },
        };
        proof {
            assert(self.bus.log().subrange(0, log2.len() as int)[log0.len() as int]
                == self.bus.log()[log0.len() as int]);
            assert(self.bus.log().subrange(0, log2.len() as int)[log0.len() as int + 1]
                == self.bus.log()[log0.len() as int + 1]);
            assert(self.bus.log().subrange(0, log2.len() as int)[log0.len() as int + 2]
                == self.bus.log()[log0.len() as int + 2]);
            assert(self.bus.log().subrange(0, log0.len() as int) =~= log0);
        }
        let m = decode_measurement(bytes.as_slice());
        Ok(Some(m))
    }
}

} // verus!
